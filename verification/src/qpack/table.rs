//! The QPACK static table (RFC 9204 Appendix A): 99 fixed name-value pairs.

use vstd::prelude::*;
use crate::qpack::header::{Header, bytes_eq};

verus! {

/// The number of entries of the static table.
pub const STATIC_TABLE_LEN: usize = 99;

/// The name of static table entry `i` (empty past the end).
pub open spec fn static_name(i: int) -> Seq<u8> {
    if i == 0 {
        seq![58u8, 97u8, 117u8, 116u8, 104u8, 111u8, 114u8, 105u8, 116u8, 121u8]
    } else if i == 1 {
        seq![58u8, 112u8, 97u8, 116u8, 104u8]
    } else if i == 2 {
        seq![97u8, 103u8, 101u8]
    } else if i == 3 {
        seq![99u8, 111u8, 110u8, 116u8, 101u8, 110u8, 116u8, 45u8, 100u8, 105u8, 115u8, 112u8, 111u8, 115u8, 105u8, 116u8, 105u8, 111u8, 110u8]
    } else if i == 4 {
        seq![99u8, 111u8, 110u8, 116u8, 101u8, 110u8, 116u8, 45u8, 108u8, 101u8, 110u8, 103u8, 116u8, 104u8]
    } else if i == 5 {
        seq![99u8, 111u8, 111u8, 107u8, 105u8, 101u8]
    } else if i == 6 {
        seq![100u8, 97u8, 116u8, 101u8]
    } else if i == 7 {
        seq![101u8, 116u8, 97u8, 103u8]
    } else if i == 8 {
        seq![105u8, 102u8, 45u8, 109u8, 111u8, 100u8, 105u8, 102u8, 105u8, 101u8, 100u8, 45u8, 115u8, 105u8, 110u8, 99u8, 101u8]
    } else if i == 9 {
        seq![105u8, 102u8, 45u8, 110u8, 111u8, 110u8, 101u8, 45u8, 109u8, 97u8, 116u8, 99u8, 104u8]
    } else if i == 10 {
        seq![108u8, 97u8, 115u8, 116u8, 45u8, 109u8, 111u8, 100u8, 105u8, 102u8, 105u8, 101u8, 100u8]
    } else if i == 11 {
        seq![108u8, 105u8, 110u8, 107u8]
    } else if i == 12 {
        seq![108u8, 111u8, 99u8, 97u8, 116u8, 105u8, 111u8, 110u8]
    } else if i == 13 {
        seq![114u8, 101u8, 102u8, 101u8, 114u8, 101u8, 114u8]
    } else if i == 14 {
        seq![115u8, 101u8, 116u8, 45u8, 99u8, 111u8, 111u8, 107u8, 105u8, 101u8]
    } else if i == 15 {
        seq![58u8, 109u8, 101u8, 116u8, 104u8, 111u8, 100u8]
    } else if i == 16 {
        seq![58u8, 109u8, 101u8, 116u8, 104u8, 111u8, 100u8]
    } else if i == 17 {
        seq![58u8, 109u8, 101u8, 116u8, 104u8, 111u8, 100u8]
    } else if i == 18 {
        seq![58u8, 109u8, 101u8, 116u8, 104u8, 111u8, 100u8]
    } else if i == 19 {
        seq![58u8, 109u8, 101u8, 116u8, 104u8, 111u8, 100u8]
    } else if i == 20 {
        seq![58u8, 109u8, 101u8, 116u8, 104u8, 111u8, 100u8]
    } else if i == 21 {
        seq![58u8, 109u8, 101u8, 116u8, 104u8, 111u8, 100u8]
    } else if i == 22 {
        seq![58u8, 115u8, 99u8, 104u8, 101u8, 109u8, 101u8]
    } else if i == 23 {
        seq![58u8, 115u8, 99u8, 104u8, 101u8, 109u8, 101u8]
    } else if i == 24 {
        seq![58u8, 115u8, 116u8, 97u8, 116u8, 117u8, 115u8]
    } else if i == 25 {
        seq![58u8, 115u8, 116u8, 97u8, 116u8, 117u8, 115u8]
    } else if i == 26 {
        seq![58u8, 115u8, 116u8, 97u8, 116u8, 117u8, 115u8]
    } else if i == 27 {
        seq![58u8, 115u8, 116u8, 97u8, 116u8, 117u8, 115u8]
    } else if i == 28 {
        seq![58u8, 115u8, 116u8, 97u8, 116u8, 117u8, 115u8]
    } else if i == 29 {
        seq![97u8, 99u8, 99u8, 101u8, 112u8, 116u8]
    } else if i == 30 {
        seq![97u8, 99u8, 99u8, 101u8, 112u8, 116u8]
    } else if i == 31 {
        seq![97u8, 99u8, 99u8, 101u8, 112u8, 116u8, 45u8, 101u8, 110u8, 99u8, 111u8, 100u8, 105u8, 110u8, 103u8]
    } else if i == 32 {
        seq![97u8, 99u8, 99u8, 101u8, 112u8, 116u8, 45u8, 114u8, 97u8, 110u8, 103u8, 101u8, 115u8]
    } else if i == 33 {
        seq![97u8, 99u8, 99u8, 101u8, 115u8, 115u8, 45u8, 99u8, 111u8, 110u8, 116u8, 114u8, 111u8, 108u8, 45u8, 97u8, 108u8, 108u8, 111u8, 119u8, 45u8, 104u8, 101u8, 97u8, 100u8, 101u8, 114u8, 115u8]
    } else if i == 34 {
        seq![97u8, 99u8, 99u8, 101u8, 115u8, 115u8, 45u8, 99u8, 111u8, 110u8, 116u8, 114u8, 111u8, 108u8, 45u8, 97u8, 108u8, 108u8, 111u8, 119u8, 45u8, 104u8, 101u8, 97u8, 100u8, 101u8, 114u8, 115u8]
    } else if i == 35 {
        seq![97u8, 99u8, 99u8, 101u8, 115u8, 115u8, 45u8, 99u8, 111u8, 110u8, 116u8, 114u8, 111u8, 108u8, 45u8, 97u8, 108u8, 108u8, 111u8, 119u8, 45u8, 111u8, 114u8, 105u8, 103u8, 105u8, 110u8]
    } else if i == 36 {
        seq![99u8, 97u8, 99u8, 104u8, 101u8, 45u8, 99u8, 111u8, 110u8, 116u8, 114u8, 111u8, 108u8]
    } else if i == 37 {
        seq![99u8, 97u8, 99u8, 104u8, 101u8, 45u8, 99u8, 111u8, 110u8, 116u8, 114u8, 111u8, 108u8]
    } else if i == 38 {
        seq![99u8, 97u8, 99u8, 104u8, 101u8, 45u8, 99u8, 111u8, 110u8, 116u8, 114u8, 111u8, 108u8]
    } else if i == 39 {
        seq![99u8, 97u8, 99u8, 104u8, 101u8, 45u8, 99u8, 111u8, 110u8, 116u8, 114u8, 111u8, 108u8]
    } else if i == 40 {
        seq![99u8, 97u8, 99u8, 104u8, 101u8, 45u8, 99u8, 111u8, 110u8, 116u8, 114u8, 111u8, 108u8]
    } else if i == 41 {
        seq![99u8, 97u8, 99u8, 104u8, 101u8, 45u8, 99u8, 111u8, 110u8, 116u8, 114u8, 111u8, 108u8]
    } else if i == 42 {
        seq![99u8, 111u8, 110u8, 116u8, 101u8, 110u8, 116u8, 45u8, 101u8, 110u8, 99u8, 111u8, 100u8, 105u8, 110u8, 103u8]
    } else if i == 43 {
        seq![99u8, 111u8, 110u8, 116u8, 101u8, 110u8, 116u8, 45u8, 101u8, 110u8, 99u8, 111u8, 100u8, 105u8, 110u8, 103u8]
    } else if i == 44 {
        seq![99u8, 111u8, 110u8, 116u8, 101u8, 110u8, 116u8, 45u8, 116u8, 121u8, 112u8, 101u8]
    } else if i == 45 {
        seq![99u8, 111u8, 110u8, 116u8, 101u8, 110u8, 116u8, 45u8, 116u8, 121u8, 112u8, 101u8]
    } else if i == 46 {
        seq![99u8, 111u8, 110u8, 116u8, 101u8, 110u8, 116u8, 45u8, 116u8, 121u8, 112u8, 101u8]
    } else if i == 47 {
        seq![99u8, 111u8, 110u8, 116u8, 101u8, 110u8, 116u8, 45u8, 116u8, 121u8, 112u8, 101u8]
    } else if i == 48 {
        seq![99u8, 111u8, 110u8, 116u8, 101u8, 110u8, 116u8, 45u8, 116u8, 121u8, 112u8, 101u8]
    } else if i == 49 {
        seq![99u8, 111u8, 110u8, 116u8, 101u8, 110u8, 116u8, 45u8, 116u8, 121u8, 112u8, 101u8]
    } else if i == 50 {
        seq![99u8, 111u8, 110u8, 116u8, 101u8, 110u8, 116u8, 45u8, 116u8, 121u8, 112u8, 101u8]
    } else if i == 51 {
        seq![99u8, 111u8, 110u8, 116u8, 101u8, 110u8, 116u8, 45u8, 116u8, 121u8, 112u8, 101u8]
    } else if i == 52 {
        seq![99u8, 111u8, 110u8, 116u8, 101u8, 110u8, 116u8, 45u8, 116u8, 121u8, 112u8, 101u8]
    } else if i == 53 {
        seq![99u8, 111u8, 110u8, 116u8, 101u8, 110u8, 116u8, 45u8, 116u8, 121u8, 112u8, 101u8]
    } else if i == 54 {
        seq![99u8, 111u8, 110u8, 116u8, 101u8, 110u8, 116u8, 45u8, 116u8, 121u8, 112u8, 101u8]
    } else if i == 55 {
        seq![114u8, 97u8, 110u8, 103u8, 101u8]
    } else if i == 56 {
        seq![115u8, 116u8, 114u8, 105u8, 99u8, 116u8, 45u8, 116u8, 114u8, 97u8, 110u8, 115u8, 112u8, 111u8, 114u8, 116u8, 45u8, 115u8, 101u8, 99u8, 117u8, 114u8, 105u8, 116u8, 121u8]
    } else if i == 57 {
        seq![115u8, 116u8, 114u8, 105u8, 99u8, 116u8, 45u8, 116u8, 114u8, 97u8, 110u8, 115u8, 112u8, 111u8, 114u8, 116u8, 45u8, 115u8, 101u8, 99u8, 117u8, 114u8, 105u8, 116u8, 121u8]
    } else if i == 58 {
        seq![115u8, 116u8, 114u8, 105u8, 99u8, 116u8, 45u8, 116u8, 114u8, 97u8, 110u8, 115u8, 112u8, 111u8, 114u8, 116u8, 45u8, 115u8, 101u8, 99u8, 117u8, 114u8, 105u8, 116u8, 121u8]
    } else if i == 59 {
        seq![118u8, 97u8, 114u8, 121u8]
    } else if i == 60 {
        seq![118u8, 97u8, 114u8, 121u8]
    } else if i == 61 {
        seq![120u8, 45u8, 99u8, 111u8, 110u8, 116u8, 101u8, 110u8, 116u8, 45u8, 116u8, 121u8, 112u8, 101u8, 45u8, 111u8, 112u8, 116u8, 105u8, 111u8, 110u8, 115u8]
    } else if i == 62 {
        seq![120u8, 45u8, 120u8, 115u8, 115u8, 45u8, 112u8, 114u8, 111u8, 116u8, 101u8, 99u8, 116u8, 105u8, 111u8, 110u8]
    } else if i == 63 {
        seq![58u8, 115u8, 116u8, 97u8, 116u8, 117u8, 115u8]
    } else if i == 64 {
        seq![58u8, 115u8, 116u8, 97u8, 116u8, 117u8, 115u8]
    } else if i == 65 {
        seq![58u8, 115u8, 116u8, 97u8, 116u8, 117u8, 115u8]
    } else if i == 66 {
        seq![58u8, 115u8, 116u8, 97u8, 116u8, 117u8, 115u8]
    } else if i == 67 {
        seq![58u8, 115u8, 116u8, 97u8, 116u8, 117u8, 115u8]
    } else if i == 68 {
        seq![58u8, 115u8, 116u8, 97u8, 116u8, 117u8, 115u8]
    } else if i == 69 {
        seq![58u8, 115u8, 116u8, 97u8, 116u8, 117u8, 115u8]
    } else if i == 70 {
        seq![58u8, 115u8, 116u8, 97u8, 116u8, 117u8, 115u8]
    } else if i == 71 {
        seq![58u8, 115u8, 116u8, 97u8, 116u8, 117u8, 115u8]
    } else if i == 72 {
        seq![97u8, 99u8, 99u8, 101u8, 112u8, 116u8, 45u8, 108u8, 97u8, 110u8, 103u8, 117u8, 97u8, 103u8, 101u8]
    } else if i == 73 {
        seq![97u8, 99u8, 99u8, 101u8, 115u8, 115u8, 45u8, 99u8, 111u8, 110u8, 116u8, 114u8, 111u8, 108u8, 45u8, 97u8, 108u8, 108u8, 111u8, 119u8, 45u8, 99u8, 114u8, 101u8, 100u8, 101u8, 110u8, 116u8, 105u8, 97u8, 108u8, 115u8]
    } else if i == 74 {
        seq![97u8, 99u8, 99u8, 101u8, 115u8, 115u8, 45u8, 99u8, 111u8, 110u8, 116u8, 114u8, 111u8, 108u8, 45u8, 97u8, 108u8, 108u8, 111u8, 119u8, 45u8, 99u8, 114u8, 101u8, 100u8, 101u8, 110u8, 116u8, 105u8, 97u8, 108u8, 115u8]
    } else if i == 75 {
        seq![97u8, 99u8, 99u8, 101u8, 115u8, 115u8, 45u8, 99u8, 111u8, 110u8, 116u8, 114u8, 111u8, 108u8, 45u8, 97u8, 108u8, 108u8, 111u8, 119u8, 45u8, 104u8, 101u8, 97u8, 100u8, 101u8, 114u8, 115u8]
    } else if i == 76 {
        seq![97u8, 99u8, 99u8, 101u8, 115u8, 115u8, 45u8, 99u8, 111u8, 110u8, 116u8, 114u8, 111u8, 108u8, 45u8, 97u8, 108u8, 108u8, 111u8, 119u8, 45u8, 109u8, 101u8, 116u8, 104u8, 111u8, 100u8, 115u8]
    } else if i == 77 {
        seq![97u8, 99u8, 99u8, 101u8, 115u8, 115u8, 45u8, 99u8, 111u8, 110u8, 116u8, 114u8, 111u8, 108u8, 45u8, 97u8, 108u8, 108u8, 111u8, 119u8, 45u8, 109u8, 101u8, 116u8, 104u8, 111u8, 100u8, 115u8]
    } else if i == 78 {
        seq![97u8, 99u8, 99u8, 101u8, 115u8, 115u8, 45u8, 99u8, 111u8, 110u8, 116u8, 114u8, 111u8, 108u8, 45u8, 97u8, 108u8, 108u8, 111u8, 119u8, 45u8, 109u8, 101u8, 116u8, 104u8, 111u8, 100u8, 115u8]
    } else if i == 79 {
        seq![97u8, 99u8, 99u8, 101u8, 115u8, 115u8, 45u8, 99u8, 111u8, 110u8, 116u8, 114u8, 111u8, 108u8, 45u8, 101u8, 120u8, 112u8, 111u8, 115u8, 101u8, 45u8, 104u8, 101u8, 97u8, 100u8, 101u8, 114u8, 115u8]
    } else if i == 80 {
        seq![97u8, 99u8, 99u8, 101u8, 115u8, 115u8, 45u8, 99u8, 111u8, 110u8, 116u8, 114u8, 111u8, 108u8, 45u8, 114u8, 101u8, 113u8, 117u8, 101u8, 115u8, 116u8, 45u8, 104u8, 101u8, 97u8, 100u8, 101u8, 114u8, 115u8]
    } else if i == 81 {
        seq![97u8, 99u8, 99u8, 101u8, 115u8, 115u8, 45u8, 99u8, 111u8, 110u8, 116u8, 114u8, 111u8, 108u8, 45u8, 114u8, 101u8, 113u8, 117u8, 101u8, 115u8, 116u8, 45u8, 109u8, 101u8, 116u8, 104u8, 111u8, 100u8]
    } else if i == 82 {
        seq![97u8, 99u8, 99u8, 101u8, 115u8, 115u8, 45u8, 99u8, 111u8, 110u8, 116u8, 114u8, 111u8, 108u8, 45u8, 114u8, 101u8, 113u8, 117u8, 101u8, 115u8, 116u8, 45u8, 109u8, 101u8, 116u8, 104u8, 111u8, 100u8]
    } else if i == 83 {
        seq![97u8, 108u8, 116u8, 45u8, 115u8, 118u8, 99u8]
    } else if i == 84 {
        seq![97u8, 117u8, 116u8, 104u8, 111u8, 114u8, 105u8, 122u8, 97u8, 116u8, 105u8, 111u8, 110u8]
    } else if i == 85 {
        seq![99u8, 111u8, 110u8, 116u8, 101u8, 110u8, 116u8, 45u8, 115u8, 101u8, 99u8, 117u8, 114u8, 105u8, 116u8, 121u8, 45u8, 112u8, 111u8, 108u8, 105u8, 99u8, 121u8]
    } else if i == 86 {
        seq![101u8, 97u8, 114u8, 108u8, 121u8, 45u8, 100u8, 97u8, 116u8, 97u8]
    } else if i == 87 {
        seq![101u8, 120u8, 112u8, 101u8, 99u8, 116u8, 45u8, 99u8, 116u8]
    } else if i == 88 {
        seq![102u8, 111u8, 114u8, 119u8, 97u8, 114u8, 100u8, 101u8, 100u8]
    } else if i == 89 {
        seq![105u8, 102u8, 45u8, 114u8, 97u8, 110u8, 103u8, 101u8]
    } else if i == 90 {
        seq![111u8, 114u8, 105u8, 103u8, 105u8, 110u8]
    } else if i == 91 {
        seq![112u8, 117u8, 114u8, 112u8, 111u8, 115u8, 101u8]
    } else if i == 92 {
        seq![115u8, 101u8, 114u8, 118u8, 101u8, 114u8]
    } else if i == 93 {
        seq![116u8, 105u8, 109u8, 105u8, 110u8, 103u8, 45u8, 97u8, 108u8, 108u8, 111u8, 119u8, 45u8, 111u8, 114u8, 105u8, 103u8, 105u8, 110u8]
    } else if i == 94 {
        seq![117u8, 112u8, 103u8, 114u8, 97u8, 100u8, 101u8, 45u8, 105u8, 110u8, 115u8, 101u8, 99u8, 117u8, 114u8, 101u8, 45u8, 114u8, 101u8, 113u8, 117u8, 101u8, 115u8, 116u8, 115u8]
    } else if i == 95 {
        seq![117u8, 115u8, 101u8, 114u8, 45u8, 97u8, 103u8, 101u8, 110u8, 116u8]
    } else if i == 96 {
        seq![120u8, 45u8, 102u8, 111u8, 114u8, 119u8, 97u8, 114u8, 100u8, 101u8, 100u8, 45u8, 102u8, 111u8, 114u8]
    } else if i == 97 {
        seq![120u8, 45u8, 102u8, 114u8, 97u8, 109u8, 101u8, 45u8, 111u8, 112u8, 116u8, 105u8, 111u8, 110u8, 115u8]
    } else if i == 98 {
        seq![120u8, 45u8, 102u8, 114u8, 97u8, 109u8, 101u8, 45u8, 111u8, 112u8, 116u8, 105u8, 111u8, 110u8, 115u8]
    } else {
        Seq::<u8>::empty()
    }
}

/// The value of static table entry `i` (empty past the end).
pub open spec fn static_value(i: int) -> Seq<u8> {
    if i == 0 {
        Seq::<u8>::empty()
    } else if i == 1 {
        seq![47u8]
    } else if i == 2 {
        seq![48u8]
    } else if i == 3 {
        Seq::<u8>::empty()
    } else if i == 4 {
        seq![48u8]
    } else if i == 5 {
        Seq::<u8>::empty()
    } else if i == 6 {
        Seq::<u8>::empty()
    } else if i == 7 {
        Seq::<u8>::empty()
    } else if i == 8 {
        Seq::<u8>::empty()
    } else if i == 9 {
        Seq::<u8>::empty()
    } else if i == 10 {
        Seq::<u8>::empty()
    } else if i == 11 {
        Seq::<u8>::empty()
    } else if i == 12 {
        Seq::<u8>::empty()
    } else if i == 13 {
        Seq::<u8>::empty()
    } else if i == 14 {
        Seq::<u8>::empty()
    } else if i == 15 {
        seq![67u8, 79u8, 78u8, 78u8, 69u8, 67u8, 84u8]
    } else if i == 16 {
        seq![68u8, 69u8, 76u8, 69u8, 84u8, 69u8]
    } else if i == 17 {
        seq![71u8, 69u8, 84u8]
    } else if i == 18 {
        seq![72u8, 69u8, 65u8, 68u8]
    } else if i == 19 {
        seq![79u8, 80u8, 84u8, 73u8, 79u8, 78u8, 83u8]
    } else if i == 20 {
        seq![80u8, 79u8, 83u8, 84u8]
    } else if i == 21 {
        seq![80u8, 85u8, 84u8]
    } else if i == 22 {
        seq![104u8, 116u8, 116u8, 112u8]
    } else if i == 23 {
        seq![104u8, 116u8, 116u8, 112u8, 115u8]
    } else if i == 24 {
        seq![49u8, 48u8, 51u8]
    } else if i == 25 {
        seq![50u8, 48u8, 48u8]
    } else if i == 26 {
        seq![51u8, 48u8, 52u8]
    } else if i == 27 {
        seq![52u8, 48u8, 52u8]
    } else if i == 28 {
        seq![53u8, 48u8, 51u8]
    } else if i == 29 {
        seq![42u8, 47u8, 42u8]
    } else if i == 30 {
        seq![97u8, 112u8, 112u8, 108u8, 105u8, 99u8, 97u8, 116u8, 105u8, 111u8, 110u8, 47u8, 100u8, 110u8, 115u8, 45u8, 109u8, 101u8, 115u8, 115u8, 97u8, 103u8, 101u8]
    } else if i == 31 {
        seq![103u8, 122u8, 105u8, 112u8, 44u8, 32u8, 100u8, 101u8, 102u8, 108u8, 97u8, 116u8, 101u8, 44u8, 32u8, 98u8, 114u8]
    } else if i == 32 {
        seq![98u8, 121u8, 116u8, 101u8, 115u8]
    } else if i == 33 {
        seq![99u8, 97u8, 99u8, 104u8, 101u8, 45u8, 99u8, 111u8, 110u8, 116u8, 114u8, 111u8, 108u8]
    } else if i == 34 {
        seq![99u8, 111u8, 110u8, 116u8, 101u8, 110u8, 116u8, 45u8, 116u8, 121u8, 112u8, 101u8]
    } else if i == 35 {
        seq![42u8]
    } else if i == 36 {
        seq![109u8, 97u8, 120u8, 45u8, 97u8, 103u8, 101u8, 61u8, 48u8]
    } else if i == 37 {
        seq![109u8, 97u8, 120u8, 45u8, 97u8, 103u8, 101u8, 61u8, 50u8, 53u8, 57u8, 50u8, 48u8, 48u8, 48u8]
    } else if i == 38 {
        seq![109u8, 97u8, 120u8, 45u8, 97u8, 103u8, 101u8, 61u8, 54u8, 48u8, 52u8, 56u8, 48u8, 48u8]
    } else if i == 39 {
        seq![110u8, 111u8, 45u8, 99u8, 97u8, 99u8, 104u8, 101u8]
    } else if i == 40 {
        seq![110u8, 111u8, 45u8, 115u8, 116u8, 111u8, 114u8, 101u8]
    } else if i == 41 {
        seq![112u8, 117u8, 98u8, 108u8, 105u8, 99u8, 44u8, 32u8, 109u8, 97u8, 120u8, 45u8, 97u8, 103u8, 101u8, 61u8, 51u8, 49u8, 53u8, 51u8, 54u8, 48u8, 48u8, 48u8]
    } else if i == 42 {
        seq![98u8, 114u8]
    } else if i == 43 {
        seq![103u8, 122u8, 105u8, 112u8]
    } else if i == 44 {
        seq![97u8, 112u8, 112u8, 108u8, 105u8, 99u8, 97u8, 116u8, 105u8, 111u8, 110u8, 47u8, 100u8, 110u8, 115u8, 45u8, 109u8, 101u8, 115u8, 115u8, 97u8, 103u8, 101u8]
    } else if i == 45 {
        seq![97u8, 112u8, 112u8, 108u8, 105u8, 99u8, 97u8, 116u8, 105u8, 111u8, 110u8, 47u8, 106u8, 97u8, 118u8, 97u8, 115u8, 99u8, 114u8, 105u8, 112u8, 116u8]
    } else if i == 46 {
        seq![97u8, 112u8, 112u8, 108u8, 105u8, 99u8, 97u8, 116u8, 105u8, 111u8, 110u8, 47u8, 106u8, 115u8, 111u8, 110u8]
    } else if i == 47 {
        seq![97u8, 112u8, 112u8, 108u8, 105u8, 99u8, 97u8, 116u8, 105u8, 111u8, 110u8, 47u8, 120u8, 45u8, 119u8, 119u8, 119u8, 45u8, 102u8, 111u8, 114u8, 109u8, 45u8, 117u8, 114u8, 108u8, 101u8, 110u8, 99u8, 111u8, 100u8, 101u8, 100u8]
    } else if i == 48 {
        seq![105u8, 109u8, 97u8, 103u8, 101u8, 47u8, 103u8, 105u8, 102u8]
    } else if i == 49 {
        seq![105u8, 109u8, 97u8, 103u8, 101u8, 47u8, 106u8, 112u8, 101u8, 103u8]
    } else if i == 50 {
        seq![105u8, 109u8, 97u8, 103u8, 101u8, 47u8, 112u8, 110u8, 103u8]
    } else if i == 51 {
        seq![116u8, 101u8, 120u8, 116u8, 47u8, 99u8, 115u8, 115u8]
    } else if i == 52 {
        seq![116u8, 101u8, 120u8, 116u8, 47u8, 104u8, 116u8, 109u8, 108u8, 59u8, 32u8, 99u8, 104u8, 97u8, 114u8, 115u8, 101u8, 116u8, 61u8, 117u8, 116u8, 102u8, 45u8, 56u8]
    } else if i == 53 {
        seq![116u8, 101u8, 120u8, 116u8, 47u8, 112u8, 108u8, 97u8, 105u8, 110u8]
    } else if i == 54 {
        seq![116u8, 101u8, 120u8, 116u8, 47u8, 112u8, 108u8, 97u8, 105u8, 110u8, 59u8, 99u8, 104u8, 97u8, 114u8, 115u8, 101u8, 116u8, 61u8, 117u8, 116u8, 102u8, 45u8, 56u8]
    } else if i == 55 {
        seq![98u8, 121u8, 116u8, 101u8, 115u8, 61u8, 48u8, 45u8]
    } else if i == 56 {
        seq![109u8, 97u8, 120u8, 45u8, 97u8, 103u8, 101u8, 61u8, 51u8, 49u8, 53u8, 51u8, 54u8, 48u8, 48u8, 48u8]
    } else if i == 57 {
        seq![109u8, 97u8, 120u8, 45u8, 97u8, 103u8, 101u8, 61u8, 51u8, 49u8, 53u8, 51u8, 54u8, 48u8, 48u8, 48u8, 59u8, 32u8, 105u8, 110u8, 99u8, 108u8, 117u8, 100u8, 101u8, 115u8, 117u8, 98u8, 100u8, 111u8, 109u8, 97u8, 105u8, 110u8, 115u8]
    } else if i == 58 {
        seq![109u8, 97u8, 120u8, 45u8, 97u8, 103u8, 101u8, 61u8, 51u8, 49u8, 53u8, 51u8, 54u8, 48u8, 48u8, 48u8, 59u8, 32u8, 105u8, 110u8, 99u8, 108u8, 117u8, 100u8, 101u8, 115u8, 117u8, 98u8, 100u8, 111u8, 109u8, 97u8, 105u8, 110u8, 115u8, 59u8, 32u8, 112u8, 114u8, 101u8, 108u8, 111u8, 97u8, 100u8]
    } else if i == 59 {
        seq![97u8, 99u8, 99u8, 101u8, 112u8, 116u8, 45u8, 101u8, 110u8, 99u8, 111u8, 100u8, 105u8, 110u8, 103u8]
    } else if i == 60 {
        seq![111u8, 114u8, 105u8, 103u8, 105u8, 110u8]
    } else if i == 61 {
        seq![110u8, 111u8, 115u8, 110u8, 105u8, 102u8, 102u8]
    } else if i == 62 {
        seq![49u8, 59u8, 32u8, 109u8, 111u8, 100u8, 101u8, 61u8, 98u8, 108u8, 111u8, 99u8, 107u8]
    } else if i == 63 {
        seq![49u8, 48u8, 48u8]
    } else if i == 64 {
        seq![50u8, 48u8, 52u8]
    } else if i == 65 {
        seq![50u8, 48u8, 54u8]
    } else if i == 66 {
        seq![51u8, 48u8, 50u8]
    } else if i == 67 {
        seq![52u8, 48u8, 48u8]
    } else if i == 68 {
        seq![52u8, 48u8, 51u8]
    } else if i == 69 {
        seq![52u8, 50u8, 49u8]
    } else if i == 70 {
        seq![52u8, 50u8, 53u8]
    } else if i == 71 {
        seq![53u8, 48u8, 48u8]
    } else if i == 72 {
        Seq::<u8>::empty()
    } else if i == 73 {
        seq![70u8, 65u8, 76u8, 83u8, 69u8]
    } else if i == 74 {
        seq![84u8, 82u8, 85u8, 69u8]
    } else if i == 75 {
        seq![42u8]
    } else if i == 76 {
        seq![103u8, 101u8, 116u8]
    } else if i == 77 {
        seq![103u8, 101u8, 116u8, 44u8, 32u8, 112u8, 111u8, 115u8, 116u8, 44u8, 32u8, 111u8, 112u8, 116u8, 105u8, 111u8, 110u8, 115u8]
    } else if i == 78 {
        seq![111u8, 112u8, 116u8, 105u8, 111u8, 110u8, 115u8]
    } else if i == 79 {
        seq![99u8, 111u8, 110u8, 116u8, 101u8, 110u8, 116u8, 45u8, 108u8, 101u8, 110u8, 103u8, 116u8, 104u8]
    } else if i == 80 {
        seq![99u8, 111u8, 110u8, 116u8, 101u8, 110u8, 116u8, 45u8, 116u8, 121u8, 112u8, 101u8]
    } else if i == 81 {
        seq![103u8, 101u8, 116u8]
    } else if i == 82 {
        seq![112u8, 111u8, 115u8, 116u8]
    } else if i == 83 {
        seq![99u8, 108u8, 101u8, 97u8, 114u8]
    } else if i == 84 {
        Seq::<u8>::empty()
    } else if i == 85 {
        seq![115u8, 99u8, 114u8, 105u8, 112u8, 116u8, 45u8, 115u8, 114u8, 99u8, 32u8, 39u8, 110u8, 111u8, 110u8, 101u8, 39u8, 59u8, 32u8, 111u8, 98u8, 106u8, 101u8, 99u8, 116u8, 45u8, 115u8, 114u8, 99u8, 32u8, 39u8, 110u8, 111u8, 110u8, 101u8, 39u8, 59u8, 32u8, 98u8, 97u8, 115u8, 101u8, 45u8, 117u8, 114u8, 105u8, 32u8, 39u8, 110u8, 111u8, 110u8, 101u8, 39u8]
    } else if i == 86 {
        seq![49u8]
    } else if i == 87 {
        Seq::<u8>::empty()
    } else if i == 88 {
        Seq::<u8>::empty()
    } else if i == 89 {
        Seq::<u8>::empty()
    } else if i == 90 {
        Seq::<u8>::empty()
    } else if i == 91 {
        seq![112u8, 114u8, 101u8, 102u8, 101u8, 116u8, 99u8, 104u8]
    } else if i == 92 {
        Seq::<u8>::empty()
    } else if i == 93 {
        seq![42u8]
    } else if i == 94 {
        seq![49u8]
    } else if i == 95 {
        Seq::<u8>::empty()
    } else if i == 96 {
        Seq::<u8>::empty()
    } else if i == 97 {
        seq![100u8, 101u8, 110u8, 121u8]
    } else if i == 98 {
        seq![115u8, 97u8, 109u8, 101u8, 111u8, 114u8, 105u8, 103u8, 105u8, 110u8]
    } else {
        Seq::<u8>::empty()
    }
}

/// Entry `i` holds exactly `name` and `value`.
pub open spec fn static_exact(i: int, name: Seq<u8>, value: Seq<u8>) -> bool {
    static_name(i) == name && static_value(i) == value
}

/// The name bytes of entry `i`.
fn static_name_bytes(i: usize) -> (r: Vec<u8>)
    requires
        i < STATIC_TABLE_LEN,
    ensures
        r@ == static_name(i as int),
{
    match i {
        0 => vec![58u8, 97u8, 117u8, 116u8, 104u8, 111u8, 114u8, 105u8, 116u8, 121u8],
        1 => vec![58u8, 112u8, 97u8, 116u8, 104u8],
        2 => vec![97u8, 103u8, 101u8],
        3 => vec![99u8, 111u8, 110u8, 116u8, 101u8, 110u8, 116u8, 45u8, 100u8, 105u8, 115u8, 112u8, 111u8, 115u8, 105u8, 116u8, 105u8, 111u8, 110u8],
        4 => vec![99u8, 111u8, 110u8, 116u8, 101u8, 110u8, 116u8, 45u8, 108u8, 101u8, 110u8, 103u8, 116u8, 104u8],
        5 => vec![99u8, 111u8, 111u8, 107u8, 105u8, 101u8],
        6 => vec![100u8, 97u8, 116u8, 101u8],
        7 => vec![101u8, 116u8, 97u8, 103u8],
        8 => vec![105u8, 102u8, 45u8, 109u8, 111u8, 100u8, 105u8, 102u8, 105u8, 101u8, 100u8, 45u8, 115u8, 105u8, 110u8, 99u8, 101u8],
        9 => vec![105u8, 102u8, 45u8, 110u8, 111u8, 110u8, 101u8, 45u8, 109u8, 97u8, 116u8, 99u8, 104u8],
        10 => vec![108u8, 97u8, 115u8, 116u8, 45u8, 109u8, 111u8, 100u8, 105u8, 102u8, 105u8, 101u8, 100u8],
        11 => vec![108u8, 105u8, 110u8, 107u8],
        12 => vec![108u8, 111u8, 99u8, 97u8, 116u8, 105u8, 111u8, 110u8],
        13 => vec![114u8, 101u8, 102u8, 101u8, 114u8, 101u8, 114u8],
        14 => vec![115u8, 101u8, 116u8, 45u8, 99u8, 111u8, 111u8, 107u8, 105u8, 101u8],
        15 => vec![58u8, 109u8, 101u8, 116u8, 104u8, 111u8, 100u8],
        16 => vec![58u8, 109u8, 101u8, 116u8, 104u8, 111u8, 100u8],
        17 => vec![58u8, 109u8, 101u8, 116u8, 104u8, 111u8, 100u8],
        18 => vec![58u8, 109u8, 101u8, 116u8, 104u8, 111u8, 100u8],
        19 => vec![58u8, 109u8, 101u8, 116u8, 104u8, 111u8, 100u8],
        20 => vec![58u8, 109u8, 101u8, 116u8, 104u8, 111u8, 100u8],
        21 => vec![58u8, 109u8, 101u8, 116u8, 104u8, 111u8, 100u8],
        22 => vec![58u8, 115u8, 99u8, 104u8, 101u8, 109u8, 101u8],
        23 => vec![58u8, 115u8, 99u8, 104u8, 101u8, 109u8, 101u8],
        24 => vec![58u8, 115u8, 116u8, 97u8, 116u8, 117u8, 115u8],
        25 => vec![58u8, 115u8, 116u8, 97u8, 116u8, 117u8, 115u8],
        26 => vec![58u8, 115u8, 116u8, 97u8, 116u8, 117u8, 115u8],
        27 => vec![58u8, 115u8, 116u8, 97u8, 116u8, 117u8, 115u8],
        28 => vec![58u8, 115u8, 116u8, 97u8, 116u8, 117u8, 115u8],
        29 => vec![97u8, 99u8, 99u8, 101u8, 112u8, 116u8],
        30 => vec![97u8, 99u8, 99u8, 101u8, 112u8, 116u8],
        31 => vec![97u8, 99u8, 99u8, 101u8, 112u8, 116u8, 45u8, 101u8, 110u8, 99u8, 111u8, 100u8, 105u8, 110u8, 103u8],
        32 => vec![97u8, 99u8, 99u8, 101u8, 112u8, 116u8, 45u8, 114u8, 97u8, 110u8, 103u8, 101u8, 115u8],
        33 => vec![97u8, 99u8, 99u8, 101u8, 115u8, 115u8, 45u8, 99u8, 111u8, 110u8, 116u8, 114u8, 111u8, 108u8, 45u8, 97u8, 108u8, 108u8, 111u8, 119u8, 45u8, 104u8, 101u8, 97u8, 100u8, 101u8, 114u8, 115u8],
        34 => vec![97u8, 99u8, 99u8, 101u8, 115u8, 115u8, 45u8, 99u8, 111u8, 110u8, 116u8, 114u8, 111u8, 108u8, 45u8, 97u8, 108u8, 108u8, 111u8, 119u8, 45u8, 104u8, 101u8, 97u8, 100u8, 101u8, 114u8, 115u8],
        35 => vec![97u8, 99u8, 99u8, 101u8, 115u8, 115u8, 45u8, 99u8, 111u8, 110u8, 116u8, 114u8, 111u8, 108u8, 45u8, 97u8, 108u8, 108u8, 111u8, 119u8, 45u8, 111u8, 114u8, 105u8, 103u8, 105u8, 110u8],
        36 => vec![99u8, 97u8, 99u8, 104u8, 101u8, 45u8, 99u8, 111u8, 110u8, 116u8, 114u8, 111u8, 108u8],
        37 => vec![99u8, 97u8, 99u8, 104u8, 101u8, 45u8, 99u8, 111u8, 110u8, 116u8, 114u8, 111u8, 108u8],
        38 => vec![99u8, 97u8, 99u8, 104u8, 101u8, 45u8, 99u8, 111u8, 110u8, 116u8, 114u8, 111u8, 108u8],
        39 => vec![99u8, 97u8, 99u8, 104u8, 101u8, 45u8, 99u8, 111u8, 110u8, 116u8, 114u8, 111u8, 108u8],
        40 => vec![99u8, 97u8, 99u8, 104u8, 101u8, 45u8, 99u8, 111u8, 110u8, 116u8, 114u8, 111u8, 108u8],
        41 => vec![99u8, 97u8, 99u8, 104u8, 101u8, 45u8, 99u8, 111u8, 110u8, 116u8, 114u8, 111u8, 108u8],
        42 => vec![99u8, 111u8, 110u8, 116u8, 101u8, 110u8, 116u8, 45u8, 101u8, 110u8, 99u8, 111u8, 100u8, 105u8, 110u8, 103u8],
        43 => vec![99u8, 111u8, 110u8, 116u8, 101u8, 110u8, 116u8, 45u8, 101u8, 110u8, 99u8, 111u8, 100u8, 105u8, 110u8, 103u8],
        44 => vec![99u8, 111u8, 110u8, 116u8, 101u8, 110u8, 116u8, 45u8, 116u8, 121u8, 112u8, 101u8],
        45 => vec![99u8, 111u8, 110u8, 116u8, 101u8, 110u8, 116u8, 45u8, 116u8, 121u8, 112u8, 101u8],
        46 => vec![99u8, 111u8, 110u8, 116u8, 101u8, 110u8, 116u8, 45u8, 116u8, 121u8, 112u8, 101u8],
        47 => vec![99u8, 111u8, 110u8, 116u8, 101u8, 110u8, 116u8, 45u8, 116u8, 121u8, 112u8, 101u8],
        48 => vec![99u8, 111u8, 110u8, 116u8, 101u8, 110u8, 116u8, 45u8, 116u8, 121u8, 112u8, 101u8],
        49 => vec![99u8, 111u8, 110u8, 116u8, 101u8, 110u8, 116u8, 45u8, 116u8, 121u8, 112u8, 101u8],
        50 => vec![99u8, 111u8, 110u8, 116u8, 101u8, 110u8, 116u8, 45u8, 116u8, 121u8, 112u8, 101u8],
        51 => vec![99u8, 111u8, 110u8, 116u8, 101u8, 110u8, 116u8, 45u8, 116u8, 121u8, 112u8, 101u8],
        52 => vec![99u8, 111u8, 110u8, 116u8, 101u8, 110u8, 116u8, 45u8, 116u8, 121u8, 112u8, 101u8],
        53 => vec![99u8, 111u8, 110u8, 116u8, 101u8, 110u8, 116u8, 45u8, 116u8, 121u8, 112u8, 101u8],
        54 => vec![99u8, 111u8, 110u8, 116u8, 101u8, 110u8, 116u8, 45u8, 116u8, 121u8, 112u8, 101u8],
        55 => vec![114u8, 97u8, 110u8, 103u8, 101u8],
        56 => vec![115u8, 116u8, 114u8, 105u8, 99u8, 116u8, 45u8, 116u8, 114u8, 97u8, 110u8, 115u8, 112u8, 111u8, 114u8, 116u8, 45u8, 115u8, 101u8, 99u8, 117u8, 114u8, 105u8, 116u8, 121u8],
        57 => vec![115u8, 116u8, 114u8, 105u8, 99u8, 116u8, 45u8, 116u8, 114u8, 97u8, 110u8, 115u8, 112u8, 111u8, 114u8, 116u8, 45u8, 115u8, 101u8, 99u8, 117u8, 114u8, 105u8, 116u8, 121u8],
        58 => vec![115u8, 116u8, 114u8, 105u8, 99u8, 116u8, 45u8, 116u8, 114u8, 97u8, 110u8, 115u8, 112u8, 111u8, 114u8, 116u8, 45u8, 115u8, 101u8, 99u8, 117u8, 114u8, 105u8, 116u8, 121u8],
        59 => vec![118u8, 97u8, 114u8, 121u8],
        60 => vec![118u8, 97u8, 114u8, 121u8],
        61 => vec![120u8, 45u8, 99u8, 111u8, 110u8, 116u8, 101u8, 110u8, 116u8, 45u8, 116u8, 121u8, 112u8, 101u8, 45u8, 111u8, 112u8, 116u8, 105u8, 111u8, 110u8, 115u8],
        62 => vec![120u8, 45u8, 120u8, 115u8, 115u8, 45u8, 112u8, 114u8, 111u8, 116u8, 101u8, 99u8, 116u8, 105u8, 111u8, 110u8],
        63 => vec![58u8, 115u8, 116u8, 97u8, 116u8, 117u8, 115u8],
        64 => vec![58u8, 115u8, 116u8, 97u8, 116u8, 117u8, 115u8],
        65 => vec![58u8, 115u8, 116u8, 97u8, 116u8, 117u8, 115u8],
        66 => vec![58u8, 115u8, 116u8, 97u8, 116u8, 117u8, 115u8],
        67 => vec![58u8, 115u8, 116u8, 97u8, 116u8, 117u8, 115u8],
        68 => vec![58u8, 115u8, 116u8, 97u8, 116u8, 117u8, 115u8],
        69 => vec![58u8, 115u8, 116u8, 97u8, 116u8, 117u8, 115u8],
        70 => vec![58u8, 115u8, 116u8, 97u8, 116u8, 117u8, 115u8],
        71 => vec![58u8, 115u8, 116u8, 97u8, 116u8, 117u8, 115u8],
        72 => vec![97u8, 99u8, 99u8, 101u8, 112u8, 116u8, 45u8, 108u8, 97u8, 110u8, 103u8, 117u8, 97u8, 103u8, 101u8],
        73 => vec![97u8, 99u8, 99u8, 101u8, 115u8, 115u8, 45u8, 99u8, 111u8, 110u8, 116u8, 114u8, 111u8, 108u8, 45u8, 97u8, 108u8, 108u8, 111u8, 119u8, 45u8, 99u8, 114u8, 101u8, 100u8, 101u8, 110u8, 116u8, 105u8, 97u8, 108u8, 115u8],
        74 => vec![97u8, 99u8, 99u8, 101u8, 115u8, 115u8, 45u8, 99u8, 111u8, 110u8, 116u8, 114u8, 111u8, 108u8, 45u8, 97u8, 108u8, 108u8, 111u8, 119u8, 45u8, 99u8, 114u8, 101u8, 100u8, 101u8, 110u8, 116u8, 105u8, 97u8, 108u8, 115u8],
        75 => vec![97u8, 99u8, 99u8, 101u8, 115u8, 115u8, 45u8, 99u8, 111u8, 110u8, 116u8, 114u8, 111u8, 108u8, 45u8, 97u8, 108u8, 108u8, 111u8, 119u8, 45u8, 104u8, 101u8, 97u8, 100u8, 101u8, 114u8, 115u8],
        76 => vec![97u8, 99u8, 99u8, 101u8, 115u8, 115u8, 45u8, 99u8, 111u8, 110u8, 116u8, 114u8, 111u8, 108u8, 45u8, 97u8, 108u8, 108u8, 111u8, 119u8, 45u8, 109u8, 101u8, 116u8, 104u8, 111u8, 100u8, 115u8],
        77 => vec![97u8, 99u8, 99u8, 101u8, 115u8, 115u8, 45u8, 99u8, 111u8, 110u8, 116u8, 114u8, 111u8, 108u8, 45u8, 97u8, 108u8, 108u8, 111u8, 119u8, 45u8, 109u8, 101u8, 116u8, 104u8, 111u8, 100u8, 115u8],
        78 => vec![97u8, 99u8, 99u8, 101u8, 115u8, 115u8, 45u8, 99u8, 111u8, 110u8, 116u8, 114u8, 111u8, 108u8, 45u8, 97u8, 108u8, 108u8, 111u8, 119u8, 45u8, 109u8, 101u8, 116u8, 104u8, 111u8, 100u8, 115u8],
        79 => vec![97u8, 99u8, 99u8, 101u8, 115u8, 115u8, 45u8, 99u8, 111u8, 110u8, 116u8, 114u8, 111u8, 108u8, 45u8, 101u8, 120u8, 112u8, 111u8, 115u8, 101u8, 45u8, 104u8, 101u8, 97u8, 100u8, 101u8, 114u8, 115u8],
        80 => vec![97u8, 99u8, 99u8, 101u8, 115u8, 115u8, 45u8, 99u8, 111u8, 110u8, 116u8, 114u8, 111u8, 108u8, 45u8, 114u8, 101u8, 113u8, 117u8, 101u8, 115u8, 116u8, 45u8, 104u8, 101u8, 97u8, 100u8, 101u8, 114u8, 115u8],
        81 => vec![97u8, 99u8, 99u8, 101u8, 115u8, 115u8, 45u8, 99u8, 111u8, 110u8, 116u8, 114u8, 111u8, 108u8, 45u8, 114u8, 101u8, 113u8, 117u8, 101u8, 115u8, 116u8, 45u8, 109u8, 101u8, 116u8, 104u8, 111u8, 100u8],
        82 => vec![97u8, 99u8, 99u8, 101u8, 115u8, 115u8, 45u8, 99u8, 111u8, 110u8, 116u8, 114u8, 111u8, 108u8, 45u8, 114u8, 101u8, 113u8, 117u8, 101u8, 115u8, 116u8, 45u8, 109u8, 101u8, 116u8, 104u8, 111u8, 100u8],
        83 => vec![97u8, 108u8, 116u8, 45u8, 115u8, 118u8, 99u8],
        84 => vec![97u8, 117u8, 116u8, 104u8, 111u8, 114u8, 105u8, 122u8, 97u8, 116u8, 105u8, 111u8, 110u8],
        85 => vec![99u8, 111u8, 110u8, 116u8, 101u8, 110u8, 116u8, 45u8, 115u8, 101u8, 99u8, 117u8, 114u8, 105u8, 116u8, 121u8, 45u8, 112u8, 111u8, 108u8, 105u8, 99u8, 121u8],
        86 => vec![101u8, 97u8, 114u8, 108u8, 121u8, 45u8, 100u8, 97u8, 116u8, 97u8],
        87 => vec![101u8, 120u8, 112u8, 101u8, 99u8, 116u8, 45u8, 99u8, 116u8],
        88 => vec![102u8, 111u8, 114u8, 119u8, 97u8, 114u8, 100u8, 101u8, 100u8],
        89 => vec![105u8, 102u8, 45u8, 114u8, 97u8, 110u8, 103u8, 101u8],
        90 => vec![111u8, 114u8, 105u8, 103u8, 105u8, 110u8],
        91 => vec![112u8, 117u8, 114u8, 112u8, 111u8, 115u8, 101u8],
        92 => vec![115u8, 101u8, 114u8, 118u8, 101u8, 114u8],
        93 => vec![116u8, 105u8, 109u8, 105u8, 110u8, 103u8, 45u8, 97u8, 108u8, 108u8, 111u8, 119u8, 45u8, 111u8, 114u8, 105u8, 103u8, 105u8, 110u8],
        94 => vec![117u8, 112u8, 103u8, 114u8, 97u8, 100u8, 101u8, 45u8, 105u8, 110u8, 115u8, 101u8, 99u8, 117u8, 114u8, 101u8, 45u8, 114u8, 101u8, 113u8, 117u8, 101u8, 115u8, 116u8, 115u8],
        95 => vec![117u8, 115u8, 101u8, 114u8, 45u8, 97u8, 103u8, 101u8, 110u8, 116u8],
        96 => vec![120u8, 45u8, 102u8, 111u8, 114u8, 119u8, 97u8, 114u8, 100u8, 101u8, 100u8, 45u8, 102u8, 111u8, 114u8],
        97 => vec![120u8, 45u8, 102u8, 114u8, 97u8, 109u8, 101u8, 45u8, 111u8, 112u8, 116u8, 105u8, 111u8, 110u8, 115u8],
        98 => vec![120u8, 45u8, 102u8, 114u8, 97u8, 109u8, 101u8, 45u8, 111u8, 112u8, 116u8, 105u8, 111u8, 110u8, 115u8],
        _ => Vec::new(),
    }
}

/// The value bytes of entry `i`.
fn static_value_bytes(i: usize) -> (r: Vec<u8>)
    requires
        i < STATIC_TABLE_LEN,
    ensures
        r@ == static_value(i as int),
{
    match i {
        0 => Vec::<u8>::new(),
        1 => vec![47u8],
        2 => vec![48u8],
        3 => Vec::<u8>::new(),
        4 => vec![48u8],
        5 => Vec::<u8>::new(),
        6 => Vec::<u8>::new(),
        7 => Vec::<u8>::new(),
        8 => Vec::<u8>::new(),
        9 => Vec::<u8>::new(),
        10 => Vec::<u8>::new(),
        11 => Vec::<u8>::new(),
        12 => Vec::<u8>::new(),
        13 => Vec::<u8>::new(),
        14 => Vec::<u8>::new(),
        15 => vec![67u8, 79u8, 78u8, 78u8, 69u8, 67u8, 84u8],
        16 => vec![68u8, 69u8, 76u8, 69u8, 84u8, 69u8],
        17 => vec![71u8, 69u8, 84u8],
        18 => vec![72u8, 69u8, 65u8, 68u8],
        19 => vec![79u8, 80u8, 84u8, 73u8, 79u8, 78u8, 83u8],
        20 => vec![80u8, 79u8, 83u8, 84u8],
        21 => vec![80u8, 85u8, 84u8],
        22 => vec![104u8, 116u8, 116u8, 112u8],
        23 => vec![104u8, 116u8, 116u8, 112u8, 115u8],
        24 => vec![49u8, 48u8, 51u8],
        25 => vec![50u8, 48u8, 48u8],
        26 => vec![51u8, 48u8, 52u8],
        27 => vec![52u8, 48u8, 52u8],
        28 => vec![53u8, 48u8, 51u8],
        29 => vec![42u8, 47u8, 42u8],
        30 => vec![97u8, 112u8, 112u8, 108u8, 105u8, 99u8, 97u8, 116u8, 105u8, 111u8, 110u8, 47u8, 100u8, 110u8, 115u8, 45u8, 109u8, 101u8, 115u8, 115u8, 97u8, 103u8, 101u8],
        31 => vec![103u8, 122u8, 105u8, 112u8, 44u8, 32u8, 100u8, 101u8, 102u8, 108u8, 97u8, 116u8, 101u8, 44u8, 32u8, 98u8, 114u8],
        32 => vec![98u8, 121u8, 116u8, 101u8, 115u8],
        33 => vec![99u8, 97u8, 99u8, 104u8, 101u8, 45u8, 99u8, 111u8, 110u8, 116u8, 114u8, 111u8, 108u8],
        34 => vec![99u8, 111u8, 110u8, 116u8, 101u8, 110u8, 116u8, 45u8, 116u8, 121u8, 112u8, 101u8],
        35 => vec![42u8],
        36 => vec![109u8, 97u8, 120u8, 45u8, 97u8, 103u8, 101u8, 61u8, 48u8],
        37 => vec![109u8, 97u8, 120u8, 45u8, 97u8, 103u8, 101u8, 61u8, 50u8, 53u8, 57u8, 50u8, 48u8, 48u8, 48u8],
        38 => vec![109u8, 97u8, 120u8, 45u8, 97u8, 103u8, 101u8, 61u8, 54u8, 48u8, 52u8, 56u8, 48u8, 48u8],
        39 => vec![110u8, 111u8, 45u8, 99u8, 97u8, 99u8, 104u8, 101u8],
        40 => vec![110u8, 111u8, 45u8, 115u8, 116u8, 111u8, 114u8, 101u8],
        41 => vec![112u8, 117u8, 98u8, 108u8, 105u8, 99u8, 44u8, 32u8, 109u8, 97u8, 120u8, 45u8, 97u8, 103u8, 101u8, 61u8, 51u8, 49u8, 53u8, 51u8, 54u8, 48u8, 48u8, 48u8],
        42 => vec![98u8, 114u8],
        43 => vec![103u8, 122u8, 105u8, 112u8],
        44 => vec![97u8, 112u8, 112u8, 108u8, 105u8, 99u8, 97u8, 116u8, 105u8, 111u8, 110u8, 47u8, 100u8, 110u8, 115u8, 45u8, 109u8, 101u8, 115u8, 115u8, 97u8, 103u8, 101u8],
        45 => vec![97u8, 112u8, 112u8, 108u8, 105u8, 99u8, 97u8, 116u8, 105u8, 111u8, 110u8, 47u8, 106u8, 97u8, 118u8, 97u8, 115u8, 99u8, 114u8, 105u8, 112u8, 116u8],
        46 => vec![97u8, 112u8, 112u8, 108u8, 105u8, 99u8, 97u8, 116u8, 105u8, 111u8, 110u8, 47u8, 106u8, 115u8, 111u8, 110u8],
        47 => vec![97u8, 112u8, 112u8, 108u8, 105u8, 99u8, 97u8, 116u8, 105u8, 111u8, 110u8, 47u8, 120u8, 45u8, 119u8, 119u8, 119u8, 45u8, 102u8, 111u8, 114u8, 109u8, 45u8, 117u8, 114u8, 108u8, 101u8, 110u8, 99u8, 111u8, 100u8, 101u8, 100u8],
        48 => vec![105u8, 109u8, 97u8, 103u8, 101u8, 47u8, 103u8, 105u8, 102u8],
        49 => vec![105u8, 109u8, 97u8, 103u8, 101u8, 47u8, 106u8, 112u8, 101u8, 103u8],
        50 => vec![105u8, 109u8, 97u8, 103u8, 101u8, 47u8, 112u8, 110u8, 103u8],
        51 => vec![116u8, 101u8, 120u8, 116u8, 47u8, 99u8, 115u8, 115u8],
        52 => vec![116u8, 101u8, 120u8, 116u8, 47u8, 104u8, 116u8, 109u8, 108u8, 59u8, 32u8, 99u8, 104u8, 97u8, 114u8, 115u8, 101u8, 116u8, 61u8, 117u8, 116u8, 102u8, 45u8, 56u8],
        53 => vec![116u8, 101u8, 120u8, 116u8, 47u8, 112u8, 108u8, 97u8, 105u8, 110u8],
        54 => vec![116u8, 101u8, 120u8, 116u8, 47u8, 112u8, 108u8, 97u8, 105u8, 110u8, 59u8, 99u8, 104u8, 97u8, 114u8, 115u8, 101u8, 116u8, 61u8, 117u8, 116u8, 102u8, 45u8, 56u8],
        55 => vec![98u8, 121u8, 116u8, 101u8, 115u8, 61u8, 48u8, 45u8],
        56 => vec![109u8, 97u8, 120u8, 45u8, 97u8, 103u8, 101u8, 61u8, 51u8, 49u8, 53u8, 51u8, 54u8, 48u8, 48u8, 48u8],
        57 => vec![109u8, 97u8, 120u8, 45u8, 97u8, 103u8, 101u8, 61u8, 51u8, 49u8, 53u8, 51u8, 54u8, 48u8, 48u8, 48u8, 59u8, 32u8, 105u8, 110u8, 99u8, 108u8, 117u8, 100u8, 101u8, 115u8, 117u8, 98u8, 100u8, 111u8, 109u8, 97u8, 105u8, 110u8, 115u8],
        58 => vec![109u8, 97u8, 120u8, 45u8, 97u8, 103u8, 101u8, 61u8, 51u8, 49u8, 53u8, 51u8, 54u8, 48u8, 48u8, 48u8, 59u8, 32u8, 105u8, 110u8, 99u8, 108u8, 117u8, 100u8, 101u8, 115u8, 117u8, 98u8, 100u8, 111u8, 109u8, 97u8, 105u8, 110u8, 115u8, 59u8, 32u8, 112u8, 114u8, 101u8, 108u8, 111u8, 97u8, 100u8],
        59 => vec![97u8, 99u8, 99u8, 101u8, 112u8, 116u8, 45u8, 101u8, 110u8, 99u8, 111u8, 100u8, 105u8, 110u8, 103u8],
        60 => vec![111u8, 114u8, 105u8, 103u8, 105u8, 110u8],
        61 => vec![110u8, 111u8, 115u8, 110u8, 105u8, 102u8, 102u8],
        62 => vec![49u8, 59u8, 32u8, 109u8, 111u8, 100u8, 101u8, 61u8, 98u8, 108u8, 111u8, 99u8, 107u8],
        63 => vec![49u8, 48u8, 48u8],
        64 => vec![50u8, 48u8, 52u8],
        65 => vec![50u8, 48u8, 54u8],
        66 => vec![51u8, 48u8, 50u8],
        67 => vec![52u8, 48u8, 48u8],
        68 => vec![52u8, 48u8, 51u8],
        69 => vec![52u8, 50u8, 49u8],
        70 => vec![52u8, 50u8, 53u8],
        71 => vec![53u8, 48u8, 48u8],
        72 => Vec::<u8>::new(),
        73 => vec![70u8, 65u8, 76u8, 83u8, 69u8],
        74 => vec![84u8, 82u8, 85u8, 69u8],
        75 => vec![42u8],
        76 => vec![103u8, 101u8, 116u8],
        77 => vec![103u8, 101u8, 116u8, 44u8, 32u8, 112u8, 111u8, 115u8, 116u8, 44u8, 32u8, 111u8, 112u8, 116u8, 105u8, 111u8, 110u8, 115u8],
        78 => vec![111u8, 112u8, 116u8, 105u8, 111u8, 110u8, 115u8],
        79 => vec![99u8, 111u8, 110u8, 116u8, 101u8, 110u8, 116u8, 45u8, 108u8, 101u8, 110u8, 103u8, 116u8, 104u8],
        80 => vec![99u8, 111u8, 110u8, 116u8, 101u8, 110u8, 116u8, 45u8, 116u8, 121u8, 112u8, 101u8],
        81 => vec![103u8, 101u8, 116u8],
        82 => vec![112u8, 111u8, 115u8, 116u8],
        83 => vec![99u8, 108u8, 101u8, 97u8, 114u8],
        84 => Vec::<u8>::new(),
        85 => vec![115u8, 99u8, 114u8, 105u8, 112u8, 116u8, 45u8, 115u8, 114u8, 99u8, 32u8, 39u8, 110u8, 111u8, 110u8, 101u8, 39u8, 59u8, 32u8, 111u8, 98u8, 106u8, 101u8, 99u8, 116u8, 45u8, 115u8, 114u8, 99u8, 32u8, 39u8, 110u8, 111u8, 110u8, 101u8, 39u8, 59u8, 32u8, 98u8, 97u8, 115u8, 101u8, 45u8, 117u8, 114u8, 105u8, 32u8, 39u8, 110u8, 111u8, 110u8, 101u8, 39u8],
        86 => vec![49u8],
        87 => Vec::<u8>::new(),
        88 => Vec::<u8>::new(),
        89 => Vec::<u8>::new(),
        90 => Vec::<u8>::new(),
        91 => vec![112u8, 114u8, 101u8, 102u8, 101u8, 116u8, 99u8, 104u8],
        92 => Vec::<u8>::new(),
        93 => vec![42u8],
        94 => vec![49u8],
        95 => Vec::<u8>::new(),
        96 => Vec::<u8>::new(),
        97 => vec![100u8, 101u8, 110u8, 121u8],
        98 => vec![115u8, 97u8, 109u8, 101u8, 111u8, 114u8, 105u8, 103u8, 105u8, 110u8],
        _ => Vec::new(),
    }
}

/// Entry `index` of the static table, or `None` past its end.
pub fn get_static_entry(index: usize) -> (r: Option<Header>)
    ensures
        index < STATIC_TABLE_LEN ==> (r matches Some(h) && h@.name == static_name(index as int)
            && h@.value == static_value(index as int) && !h@.never_indexed),
        index >= STATIC_TABLE_LEN ==> r is None,
{
    if index < STATIC_TABLE_LEN {
        Some(Header::from_validated_parts_internal(static_name_bytes(index), static_value_bytes(index)))
    } else {
        None
    }
}

/// The whole static table, entry `i` at position `i`.
#[allow(non_snake_case)]
pub fn STATIC_TABLE() -> (r: Vec<Header>)
    ensures
        r.len() == STATIC_TABLE_LEN,
        forall|i: int|
            0 <= i < STATIC_TABLE_LEN ==> (#[trigger] r[i])@.name == static_name(i) && r[i]@.value
                == static_value(i) && !r[i]@.never_indexed,
{
    let mut v: Vec<Header> = Vec::new();
    let mut i: usize = 0;
    while i < STATIC_TABLE_LEN
        invariant
            i <= STATIC_TABLE_LEN,
            v.len() == i,
            forall|j: int|
                0 <= j < i ==> (#[trigger] v[j])@.name == static_name(j) && v[j]@.value
                    == static_value(j) && !v[j]@.never_indexed,
        decreases STATIC_TABLE_LEN - i,
    {
        v.push(Header::from_validated_parts_internal(static_name_bytes(i), static_value_bytes(i)));
        i = i + 1;
    }
    v
}

/// Searches the static table for `name` and `value`.
///
/// The first component is the first entry holding both; the second is that
/// same entry when there is one, else the first entry holding `name`.
pub fn find_static_entry(name: &[u8], value: &[u8]) -> (r: (Option<usize>, Option<usize>))
    ensures
        match r.0 {
            Some(k) => k < STATIC_TABLE_LEN && static_exact(k as int, name@, value@) && forall|j: int|
                0 <= j < k ==> !static_exact(j, name@, value@),
            None => forall|j: int| 0 <= j < STATIC_TABLE_LEN ==> !static_exact(j, name@, value@),
        },
        r.0 is Some ==> r.1 == r.0,
        r.0 is None ==> match r.1 {
            Some(k) => k < STATIC_TABLE_LEN && static_name(k as int) == name@ && forall|j: int|
                0 <= j < k ==> static_name(j) != name@,
            None => forall|j: int| 0 <= j < STATIC_TABLE_LEN ==> static_name(j) != name@,
        },
{
    let mut name_match: Option<usize> = None;
    let mut i: usize = 0;
    while i < STATIC_TABLE_LEN
        invariant
            i <= STATIC_TABLE_LEN,
            forall|j: int| 0 <= j < i ==> !static_exact(j, name@, value@),
            match name_match {
                Some(k) => k < i && static_name(k as int) == name@ && forall|j: int|
                    0 <= j < k ==> static_name(j) != name@,
                None => forall|j: int| 0 <= j < i ==> static_name(j) != name@,
            },
        decreases STATIC_TABLE_LEN - i,
    {
        let n = static_name_bytes(i);
        if bytes_eq(n.as_slice(), name) {
            let v = static_value_bytes(i);
            if bytes_eq(v.as_slice(), value) {
                return (Some(i), Some(i));
            }
            if name_match.is_none() {
                name_match = Some(i);
            }
        }
        i = i + 1;
    }
    (None, name_match)
}

} // verus!
