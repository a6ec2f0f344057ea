//! The Huffman code of HPACK and QPACK string literals (RFC 7541 Appendix B).
//!
//! A string is coded as the concatenation of its bytes' codes, padded to a
//! whole number of bytes with the most significant bits of the EOS code
//! (all ones).

use vstd::prelude::*;
use vstd::arithmetic::power2::{pow2, lemma_pow2_adds, lemma_pow2_pos, lemma2_to64, lemma_pow2_strictly_increases};
use vstd::bits::{lemma_u64_shl_is_mul, lemma_u64_pow2_no_overflow};
use crate::bytes_be::{be_value, be_bytes, lemma_be_bytes_of_value, lemma_be_bytes_len};
use crate::error::QpackError;

verus! {

/// The length in bits of the code of symbol `s` (0..=255 bytes, 256 EOS).
pub open spec fn huff_bits(s: int) -> nat {
    if s == 0 {
        13
    } else if s == 1 {
        23
    } else if s == 2 {
        28
    } else if s == 3 {
        28
    } else if s == 4 {
        28
    } else if s == 5 {
        28
    } else if s == 6 {
        28
    } else if s == 7 {
        28
    } else if s == 8 {
        28
    } else if s == 9 {
        24
    } else if s == 10 {
        30
    } else if s == 11 {
        28
    } else if s == 12 {
        28
    } else if s == 13 {
        30
    } else if s == 14 {
        28
    } else if s == 15 {
        28
    } else if s == 16 {
        28
    } else if s == 17 {
        28
    } else if s == 18 {
        28
    } else if s == 19 {
        28
    } else if s == 20 {
        28
    } else if s == 21 {
        28
    } else if s == 22 {
        30
    } else if s == 23 {
        28
    } else if s == 24 {
        28
    } else if s == 25 {
        28
    } else if s == 26 {
        28
    } else if s == 27 {
        28
    } else if s == 28 {
        28
    } else if s == 29 {
        28
    } else if s == 30 {
        28
    } else if s == 31 {
        28
    } else if s == 32 {
        6
    } else if s == 33 {
        10
    } else if s == 34 {
        10
    } else if s == 35 {
        12
    } else if s == 36 {
        13
    } else if s == 37 {
        6
    } else if s == 38 {
        8
    } else if s == 39 {
        11
    } else if s == 40 {
        10
    } else if s == 41 {
        10
    } else if s == 42 {
        8
    } else if s == 43 {
        11
    } else if s == 44 {
        8
    } else if s == 45 {
        6
    } else if s == 46 {
        6
    } else if s == 47 {
        6
    } else if s == 48 {
        5
    } else if s == 49 {
        5
    } else if s == 50 {
        5
    } else if s == 51 {
        6
    } else if s == 52 {
        6
    } else if s == 53 {
        6
    } else if s == 54 {
        6
    } else if s == 55 {
        6
    } else if s == 56 {
        6
    } else if s == 57 {
        6
    } else if s == 58 {
        7
    } else if s == 59 {
        8
    } else if s == 60 {
        15
    } else if s == 61 {
        6
    } else if s == 62 {
        12
    } else if s == 63 {
        10
    } else if s == 64 {
        13
    } else if s == 65 {
        6
    } else if s == 66 {
        7
    } else if s == 67 {
        7
    } else if s == 68 {
        7
    } else if s == 69 {
        7
    } else if s == 70 {
        7
    } else if s == 71 {
        7
    } else if s == 72 {
        7
    } else if s == 73 {
        7
    } else if s == 74 {
        7
    } else if s == 75 {
        7
    } else if s == 76 {
        7
    } else if s == 77 {
        7
    } else if s == 78 {
        7
    } else if s == 79 {
        7
    } else if s == 80 {
        7
    } else if s == 81 {
        7
    } else if s == 82 {
        7
    } else if s == 83 {
        7
    } else if s == 84 {
        7
    } else if s == 85 {
        7
    } else if s == 86 {
        7
    } else if s == 87 {
        7
    } else if s == 88 {
        8
    } else if s == 89 {
        7
    } else if s == 90 {
        8
    } else if s == 91 {
        13
    } else if s == 92 {
        19
    } else if s == 93 {
        13
    } else if s == 94 {
        14
    } else if s == 95 {
        6
    } else if s == 96 {
        15
    } else if s == 97 {
        5
    } else if s == 98 {
        6
    } else if s == 99 {
        5
    } else if s == 100 {
        6
    } else if s == 101 {
        5
    } else if s == 102 {
        6
    } else if s == 103 {
        6
    } else if s == 104 {
        6
    } else if s == 105 {
        5
    } else if s == 106 {
        7
    } else if s == 107 {
        7
    } else if s == 108 {
        6
    } else if s == 109 {
        6
    } else if s == 110 {
        6
    } else if s == 111 {
        5
    } else if s == 112 {
        6
    } else if s == 113 {
        7
    } else if s == 114 {
        6
    } else if s == 115 {
        5
    } else if s == 116 {
        5
    } else if s == 117 {
        6
    } else if s == 118 {
        7
    } else if s == 119 {
        7
    } else if s == 120 {
        7
    } else if s == 121 {
        7
    } else if s == 122 {
        7
    } else if s == 123 {
        15
    } else if s == 124 {
        11
    } else if s == 125 {
        14
    } else if s == 126 {
        13
    } else if s == 127 {
        28
    } else if s == 128 {
        20
    } else if s == 129 {
        22
    } else if s == 130 {
        20
    } else if s == 131 {
        20
    } else if s == 132 {
        22
    } else if s == 133 {
        22
    } else if s == 134 {
        22
    } else if s == 135 {
        23
    } else if s == 136 {
        22
    } else if s == 137 {
        23
    } else if s == 138 {
        23
    } else if s == 139 {
        23
    } else if s == 140 {
        23
    } else if s == 141 {
        23
    } else if s == 142 {
        24
    } else if s == 143 {
        23
    } else if s == 144 {
        24
    } else if s == 145 {
        24
    } else if s == 146 {
        22
    } else if s == 147 {
        23
    } else if s == 148 {
        24
    } else if s == 149 {
        23
    } else if s == 150 {
        23
    } else if s == 151 {
        23
    } else if s == 152 {
        23
    } else if s == 153 {
        21
    } else if s == 154 {
        22
    } else if s == 155 {
        23
    } else if s == 156 {
        22
    } else if s == 157 {
        23
    } else if s == 158 {
        23
    } else if s == 159 {
        24
    } else if s == 160 {
        22
    } else if s == 161 {
        21
    } else if s == 162 {
        20
    } else if s == 163 {
        22
    } else if s == 164 {
        22
    } else if s == 165 {
        23
    } else if s == 166 {
        23
    } else if s == 167 {
        21
    } else if s == 168 {
        23
    } else if s == 169 {
        22
    } else if s == 170 {
        22
    } else if s == 171 {
        24
    } else if s == 172 {
        21
    } else if s == 173 {
        22
    } else if s == 174 {
        23
    } else if s == 175 {
        23
    } else if s == 176 {
        21
    } else if s == 177 {
        21
    } else if s == 178 {
        22
    } else if s == 179 {
        21
    } else if s == 180 {
        23
    } else if s == 181 {
        22
    } else if s == 182 {
        23
    } else if s == 183 {
        23
    } else if s == 184 {
        20
    } else if s == 185 {
        22
    } else if s == 186 {
        22
    } else if s == 187 {
        22
    } else if s == 188 {
        23
    } else if s == 189 {
        22
    } else if s == 190 {
        22
    } else if s == 191 {
        23
    } else if s == 192 {
        26
    } else if s == 193 {
        26
    } else if s == 194 {
        20
    } else if s == 195 {
        19
    } else if s == 196 {
        22
    } else if s == 197 {
        23
    } else if s == 198 {
        22
    } else if s == 199 {
        25
    } else if s == 200 {
        26
    } else if s == 201 {
        26
    } else if s == 202 {
        26
    } else if s == 203 {
        27
    } else if s == 204 {
        27
    } else if s == 205 {
        26
    } else if s == 206 {
        24
    } else if s == 207 {
        25
    } else if s == 208 {
        19
    } else if s == 209 {
        21
    } else if s == 210 {
        26
    } else if s == 211 {
        27
    } else if s == 212 {
        27
    } else if s == 213 {
        26
    } else if s == 214 {
        27
    } else if s == 215 {
        24
    } else if s == 216 {
        21
    } else if s == 217 {
        21
    } else if s == 218 {
        26
    } else if s == 219 {
        26
    } else if s == 220 {
        28
    } else if s == 221 {
        27
    } else if s == 222 {
        27
    } else if s == 223 {
        27
    } else if s == 224 {
        20
    } else if s == 225 {
        24
    } else if s == 226 {
        20
    } else if s == 227 {
        21
    } else if s == 228 {
        22
    } else if s == 229 {
        21
    } else if s == 230 {
        21
    } else if s == 231 {
        23
    } else if s == 232 {
        22
    } else if s == 233 {
        22
    } else if s == 234 {
        25
    } else if s == 235 {
        25
    } else if s == 236 {
        24
    } else if s == 237 {
        24
    } else if s == 238 {
        26
    } else if s == 239 {
        23
    } else if s == 240 {
        26
    } else if s == 241 {
        27
    } else if s == 242 {
        26
    } else if s == 243 {
        26
    } else if s == 244 {
        27
    } else if s == 245 {
        27
    } else if s == 246 {
        27
    } else if s == 247 {
        27
    } else if s == 248 {
        27
    } else if s == 249 {
        28
    } else if s == 250 {
        27
    } else if s == 251 {
        27
    } else if s == 252 {
        27
    } else if s == 253 {
        27
    } else if s == 254 {
        27
    } else if s == 255 {
        26
    } else if s == 256 {
        30
    } else {
        0
    }
}

/// The code of symbol `s`, as a `huff_bits(s)`-bit number.
pub open spec fn huff_code(s: int) -> nat {
    if s == 0 {
        0x1ff8
    } else if s == 1 {
        0x7fffd8
    } else if s == 2 {
        0xfffffe2
    } else if s == 3 {
        0xfffffe3
    } else if s == 4 {
        0xfffffe4
    } else if s == 5 {
        0xfffffe5
    } else if s == 6 {
        0xfffffe6
    } else if s == 7 {
        0xfffffe7
    } else if s == 8 {
        0xfffffe8
    } else if s == 9 {
        0xffffea
    } else if s == 10 {
        0x3ffffffc
    } else if s == 11 {
        0xfffffe9
    } else if s == 12 {
        0xfffffea
    } else if s == 13 {
        0x3ffffffd
    } else if s == 14 {
        0xfffffeb
    } else if s == 15 {
        0xfffffec
    } else if s == 16 {
        0xfffffed
    } else if s == 17 {
        0xfffffee
    } else if s == 18 {
        0xfffffef
    } else if s == 19 {
        0xffffff0
    } else if s == 20 {
        0xffffff1
    } else if s == 21 {
        0xffffff2
    } else if s == 22 {
        0x3ffffffe
    } else if s == 23 {
        0xffffff3
    } else if s == 24 {
        0xffffff4
    } else if s == 25 {
        0xffffff5
    } else if s == 26 {
        0xffffff6
    } else if s == 27 {
        0xffffff7
    } else if s == 28 {
        0xffffff8
    } else if s == 29 {
        0xffffff9
    } else if s == 30 {
        0xffffffa
    } else if s == 31 {
        0xffffffb
    } else if s == 32 {
        0x14
    } else if s == 33 {
        0x3f8
    } else if s == 34 {
        0x3f9
    } else if s == 35 {
        0xffa
    } else if s == 36 {
        0x1ff9
    } else if s == 37 {
        0x15
    } else if s == 38 {
        0xf8
    } else if s == 39 {
        0x7fa
    } else if s == 40 {
        0x3fa
    } else if s == 41 {
        0x3fb
    } else if s == 42 {
        0xf9
    } else if s == 43 {
        0x7fb
    } else if s == 44 {
        0xfa
    } else if s == 45 {
        0x16
    } else if s == 46 {
        0x17
    } else if s == 47 {
        0x18
    } else if s == 48 {
        0x0
    } else if s == 49 {
        0x1
    } else if s == 50 {
        0x2
    } else if s == 51 {
        0x19
    } else if s == 52 {
        0x1a
    } else if s == 53 {
        0x1b
    } else if s == 54 {
        0x1c
    } else if s == 55 {
        0x1d
    } else if s == 56 {
        0x1e
    } else if s == 57 {
        0x1f
    } else if s == 58 {
        0x5c
    } else if s == 59 {
        0xfb
    } else if s == 60 {
        0x7ffc
    } else if s == 61 {
        0x20
    } else if s == 62 {
        0xffb
    } else if s == 63 {
        0x3fc
    } else if s == 64 {
        0x1ffa
    } else if s == 65 {
        0x21
    } else if s == 66 {
        0x5d
    } else if s == 67 {
        0x5e
    } else if s == 68 {
        0x5f
    } else if s == 69 {
        0x60
    } else if s == 70 {
        0x61
    } else if s == 71 {
        0x62
    } else if s == 72 {
        0x63
    } else if s == 73 {
        0x64
    } else if s == 74 {
        0x65
    } else if s == 75 {
        0x66
    } else if s == 76 {
        0x67
    } else if s == 77 {
        0x68
    } else if s == 78 {
        0x69
    } else if s == 79 {
        0x6a
    } else if s == 80 {
        0x6b
    } else if s == 81 {
        0x6c
    } else if s == 82 {
        0x6d
    } else if s == 83 {
        0x6e
    } else if s == 84 {
        0x6f
    } else if s == 85 {
        0x70
    } else if s == 86 {
        0x71
    } else if s == 87 {
        0x72
    } else if s == 88 {
        0xfc
    } else if s == 89 {
        0x73
    } else if s == 90 {
        0xfd
    } else if s == 91 {
        0x1ffb
    } else if s == 92 {
        0x7fff0
    } else if s == 93 {
        0x1ffc
    } else if s == 94 {
        0x3ffc
    } else if s == 95 {
        0x22
    } else if s == 96 {
        0x7ffd
    } else if s == 97 {
        0x3
    } else if s == 98 {
        0x23
    } else if s == 99 {
        0x4
    } else if s == 100 {
        0x24
    } else if s == 101 {
        0x5
    } else if s == 102 {
        0x25
    } else if s == 103 {
        0x26
    } else if s == 104 {
        0x27
    } else if s == 105 {
        0x6
    } else if s == 106 {
        0x74
    } else if s == 107 {
        0x75
    } else if s == 108 {
        0x28
    } else if s == 109 {
        0x29
    } else if s == 110 {
        0x2a
    } else if s == 111 {
        0x7
    } else if s == 112 {
        0x2b
    } else if s == 113 {
        0x76
    } else if s == 114 {
        0x2c
    } else if s == 115 {
        0x8
    } else if s == 116 {
        0x9
    } else if s == 117 {
        0x2d
    } else if s == 118 {
        0x77
    } else if s == 119 {
        0x78
    } else if s == 120 {
        0x79
    } else if s == 121 {
        0x7a
    } else if s == 122 {
        0x7b
    } else if s == 123 {
        0x7ffe
    } else if s == 124 {
        0x7fc
    } else if s == 125 {
        0x3ffd
    } else if s == 126 {
        0x1ffd
    } else if s == 127 {
        0xffffffc
    } else if s == 128 {
        0xfffe6
    } else if s == 129 {
        0x3fffd2
    } else if s == 130 {
        0xfffe7
    } else if s == 131 {
        0xfffe8
    } else if s == 132 {
        0x3fffd3
    } else if s == 133 {
        0x3fffd4
    } else if s == 134 {
        0x3fffd5
    } else if s == 135 {
        0x7fffd9
    } else if s == 136 {
        0x3fffd6
    } else if s == 137 {
        0x7fffda
    } else if s == 138 {
        0x7fffdb
    } else if s == 139 {
        0x7fffdc
    } else if s == 140 {
        0x7fffdd
    } else if s == 141 {
        0x7fffde
    } else if s == 142 {
        0xffffeb
    } else if s == 143 {
        0x7fffdf
    } else if s == 144 {
        0xffffec
    } else if s == 145 {
        0xffffed
    } else if s == 146 {
        0x3fffd7
    } else if s == 147 {
        0x7fffe0
    } else if s == 148 {
        0xffffee
    } else if s == 149 {
        0x7fffe1
    } else if s == 150 {
        0x7fffe2
    } else if s == 151 {
        0x7fffe3
    } else if s == 152 {
        0x7fffe4
    } else if s == 153 {
        0x1fffdc
    } else if s == 154 {
        0x3fffd8
    } else if s == 155 {
        0x7fffe5
    } else if s == 156 {
        0x3fffd9
    } else if s == 157 {
        0x7fffe6
    } else if s == 158 {
        0x7fffe7
    } else if s == 159 {
        0xffffef
    } else if s == 160 {
        0x3fffda
    } else if s == 161 {
        0x1fffdd
    } else if s == 162 {
        0xfffe9
    } else if s == 163 {
        0x3fffdb
    } else if s == 164 {
        0x3fffdc
    } else if s == 165 {
        0x7fffe8
    } else if s == 166 {
        0x7fffe9
    } else if s == 167 {
        0x1fffde
    } else if s == 168 {
        0x7fffea
    } else if s == 169 {
        0x3fffdd
    } else if s == 170 {
        0x3fffde
    } else if s == 171 {
        0xfffff0
    } else if s == 172 {
        0x1fffdf
    } else if s == 173 {
        0x3fffdf
    } else if s == 174 {
        0x7fffeb
    } else if s == 175 {
        0x7fffec
    } else if s == 176 {
        0x1fffe0
    } else if s == 177 {
        0x1fffe1
    } else if s == 178 {
        0x3fffe0
    } else if s == 179 {
        0x1fffe2
    } else if s == 180 {
        0x7fffed
    } else if s == 181 {
        0x3fffe1
    } else if s == 182 {
        0x7fffee
    } else if s == 183 {
        0x7fffef
    } else if s == 184 {
        0xfffea
    } else if s == 185 {
        0x3fffe2
    } else if s == 186 {
        0x3fffe3
    } else if s == 187 {
        0x3fffe4
    } else if s == 188 {
        0x7ffff0
    } else if s == 189 {
        0x3fffe5
    } else if s == 190 {
        0x3fffe6
    } else if s == 191 {
        0x7ffff1
    } else if s == 192 {
        0x3ffffe0
    } else if s == 193 {
        0x3ffffe1
    } else if s == 194 {
        0xfffeb
    } else if s == 195 {
        0x7fff1
    } else if s == 196 {
        0x3fffe7
    } else if s == 197 {
        0x7ffff2
    } else if s == 198 {
        0x3fffe8
    } else if s == 199 {
        0x1ffffec
    } else if s == 200 {
        0x3ffffe2
    } else if s == 201 {
        0x3ffffe3
    } else if s == 202 {
        0x3ffffe4
    } else if s == 203 {
        0x7ffffde
    } else if s == 204 {
        0x7ffffdf
    } else if s == 205 {
        0x3ffffe5
    } else if s == 206 {
        0xfffff1
    } else if s == 207 {
        0x1ffffed
    } else if s == 208 {
        0x7fff2
    } else if s == 209 {
        0x1fffe3
    } else if s == 210 {
        0x3ffffe6
    } else if s == 211 {
        0x7ffffe0
    } else if s == 212 {
        0x7ffffe1
    } else if s == 213 {
        0x3ffffe7
    } else if s == 214 {
        0x7ffffe2
    } else if s == 215 {
        0xfffff2
    } else if s == 216 {
        0x1fffe4
    } else if s == 217 {
        0x1fffe5
    } else if s == 218 {
        0x3ffffe8
    } else if s == 219 {
        0x3ffffe9
    } else if s == 220 {
        0xffffffd
    } else if s == 221 {
        0x7ffffe3
    } else if s == 222 {
        0x7ffffe4
    } else if s == 223 {
        0x7ffffe5
    } else if s == 224 {
        0xfffec
    } else if s == 225 {
        0xfffff3
    } else if s == 226 {
        0xfffed
    } else if s == 227 {
        0x1fffe6
    } else if s == 228 {
        0x3fffe9
    } else if s == 229 {
        0x1fffe7
    } else if s == 230 {
        0x1fffe8
    } else if s == 231 {
        0x7ffff3
    } else if s == 232 {
        0x3fffea
    } else if s == 233 {
        0x3fffeb
    } else if s == 234 {
        0x1ffffee
    } else if s == 235 {
        0x1ffffef
    } else if s == 236 {
        0xfffff4
    } else if s == 237 {
        0xfffff5
    } else if s == 238 {
        0x3ffffea
    } else if s == 239 {
        0x7ffff4
    } else if s == 240 {
        0x3ffffeb
    } else if s == 241 {
        0x7ffffe6
    } else if s == 242 {
        0x3ffffec
    } else if s == 243 {
        0x3ffffed
    } else if s == 244 {
        0x7ffffe7
    } else if s == 245 {
        0x7ffffe8
    } else if s == 246 {
        0x7ffffe9
    } else if s == 247 {
        0x7ffffea
    } else if s == 248 {
        0x7ffffeb
    } else if s == 249 {
        0xffffffe
    } else if s == 250 {
        0x7ffffec
    } else if s == 251 {
        0x7ffffed
    } else if s == 252 {
        0x7ffffee
    } else if s == 253 {
        0x7ffffef
    } else if s == 254 {
        0x7fffff0
    } else if s == 255 {
        0x3ffffee
    } else if s == 256 {
        0x3fffffff
    } else {
        0
    }
}

/// The number of bits of the codes of `data`.
pub open spec fn huffman_bit_len(data: Seq<u8>) -> nat
    decreases data.len(),
{
    if data.len() == 0 {
        0
    } else {
        huffman_bit_len(data.drop_last()) + huff_bits(data.last() as int)
    }
}

/// The codes of `data`, concatenated, read as a number.
pub open spec fn huffman_value(data: Seq<u8>) -> nat
    decreases data.len(),
{
    if data.len() == 0 {
        0
    } else {
        huffman_value(data.drop_last()) * pow2(huff_bits(data.last() as int)) + huff_code(
            data.last() as int,
        )
    }
}

/// The length in bytes of the Huffman coding of `data`.
pub open spec fn huffman_encoded_len(data: Seq<u8>) -> nat {
    (huffman_bit_len(data) + 7) / 8
}

/// The number of padding bits that complete the last byte.
pub open spec fn huffman_padding(data: Seq<u8>) -> nat {
    (huffman_encoded_len(data) * 8 - huffman_bit_len(data)) as nat
}

/// The Huffman coding of `data`: its codes, then all-ones padding to a byte
/// boundary.
pub open spec fn huffman_encoding(data: Seq<u8>) -> Seq<u8> {
    let pad = huffman_padding(data);
    be_bytes(
        (huffman_value(data) * pow2(pad) + pow2(pad) - 1) as nat,
        huffman_encoded_len(data),
    )
}

/// Symbol `s`'s code is the top bits of the `ab`-bit number `acc`.
pub open spec fn sym_matches(acc: nat, ab: nat, s: int) -> bool {
    huff_bits(s) <= ab && acc / pow2((ab - huff_bits(s)) as nat) == huff_code(s)
}

/// Whether `s` is the first symbol, in table order, whose code tops the
/// `ab`-bit accumulator `acc`.
pub open spec fn is_first_match(acc: nat, ab: nat, s: int) -> bool {
    &&& 0 <= s < 257
    &&& sym_matches(acc, ab, s)
    &&& forall|t: int| 0 <= t < s ==> !sym_matches(acc, ab, t)
}

/// The first symbol whose code tops the accumulator.
pub open spec fn first_match(acc: nat, ab: nat) -> Option<int> {
    if exists|s: int| is_first_match(acc, ab, s) {
        Some(choose|s: int| is_first_match(acc, ab, s))
    } else {
        None
    }
}

/// Reads symbols off the top of an `ab`-bit accumulator while at least five
/// bits remain and a code matches; `None` on the EOS symbol. Returns the
/// bits left and the output so far.
pub open spec fn read_symbols(acc: nat, ab: nat, out: Seq<u8>) -> Option<(nat, nat, Seq<u8>)>
    decreases ab,
{
    if ab < 5 {
        Some((acc, ab, out))
    } else {
        match first_match(acc, ab) {
            None => Some((acc, ab, out)),
            Some(s) => if s == 256 || huff_bits(s) == 0 || huff_bits(s) > ab {
                None
            } else {
                read_symbols(acc % pow2((ab - huff_bits(s)) as nat), (ab - huff_bits(s)) as nat, out.push(s as u8))
            },
        }
    }
}

/// Huffman decoding of `data` from byte `i` on, with `ab` bits of `acc`
/// pending: each byte joins the accumulator and the symbols it completes are
/// read; an accumulator that grows past 55 bits holds no code; what remains
/// at the end must be at most seven bits, all ones (RFC 7541 Section 5.2).
pub open spec fn read_bytes(data: Seq<u8>, i: nat, acc: nat, ab: nat, out: Seq<u8>) -> Result<Seq<u8>, QpackError>
    decreases data.len() - i,
{
    if i >= data.len() {
        if ab > 7 || (ab > 0 && acc != pow2(ab) - 1) {
            Err(QpackError::InvalidHuffman)
        } else {
            Ok(out)
        }
    } else {
        match read_symbols((acc * 256 + data[i as int]) as nat, ab + 8, out) {
            None => Err(QpackError::InvalidHuffman),
            Some((a, b, o)) => if b > 55 {
                Err(QpackError::InvalidHuffman)
            } else {
                read_bytes(data, i + 1, a, b, o)
            },
        }
    }
}

/// The Huffman decoding of `data`.
pub open spec fn huffman_decoding(data: Seq<u8>) -> Result<Seq<u8>, QpackError> {
    read_bytes(data, 0, 0, 0, Seq::empty())
}

/// The first match is the one the search found.
pub proof fn lemma_first_match(acc: nat, ab: nat, s: int)
    ensures
        is_first_match(acc, ab, s) ==> first_match(acc, ab) == Some(s),
        (forall|t: int| 0 <= t < 257 ==> !sym_matches(acc, ab, t)) ==> first_match(acc, ab) is None,
{
    if is_first_match(acc, ab, s) {
        let k = choose|k: int| is_first_match(acc, ab, k);
        assert(is_first_match(acc, ab, k));
        if k < s {
            assert(!sym_matches(acc, ab, k));
        }
        if k > s {
            assert(!sym_matches(acc, ab, s));
        }
    }
    if forall|t: int| 0 <= t < 257 ==> !sym_matches(acc, ab, t) {
        if exists|k: int| is_first_match(acc, ab, k) {
            let k = choose|k: int| is_first_match(acc, ab, k);
            assert(sym_matches(acc, ab, k));
        }
    }
}

/// Every code is 5 to 30 bits long and fits in its length.
pub proof fn lemma_huff_table(s: int)
    requires
        0 <= s < 257,
    ensures
        5 <= huff_bits(s) <= 30,
        huff_code(s) < pow2(huff_bits(s)),
{
    lemma2_to64();
}

proof fn lemma_huff_take_step(data: Seq<u8>, i: int)
    requires
        0 <= i < data.len(),
    ensures
        huffman_value(data.take(i + 1)) == huffman_value(data.take(i)) * pow2(
            huff_bits(data[i] as int),
        ) + huff_code(data[i] as int),
        huffman_bit_len(data.take(i + 1)) == huffman_bit_len(data.take(i)) + huff_bits(
            data[i] as int,
        ),
{
    assert(data.take(i + 1).drop_last() =~= data.take(i));
}

proof fn lemma_push_step(s: Seq<u8>, b: u8)
    ensures
        huffman_value(s.push(b)) == huffman_value(s) * pow2(huff_bits(b as int)) + huff_code(
            b as int,
        ),
        huffman_bit_len(s.push(b)) == huffman_bit_len(s) + huff_bits(b as int),
{
    assert(s.push(b).drop_last() =~= s);
}

/// The bit length of a prefix is at most that of the whole.
proof fn lemma_bit_len_take(data: Seq<u8>, i: int)
    requires
        0 <= i <= data.len(),
    ensures
        huffman_bit_len(data.take(i)) <= huffman_bit_len(data),
    decreases data.len() - i,
{
    if i < data.len() {
        lemma_huff_take_step(data, i);
        lemma_bit_len_take(data, i + 1);
    } else {
        assert(data.take(i) =~= data);
    }
}

/// Appending `bits` bits of value `code` to an `ab`-bit accumulator.
proof fn lemma_append_code(b: int, acc: int, pab: int, pbits: int, code: int)
    requires
        b >= 0,
        0 <= acc < pab,
        0 <= code < pbits,
    ensures
        (b * pab + acc) * pbits + code == b * (pab * pbits) + (acc * pbits + code),
        0 <= acc * pbits + code < pab * pbits,
{
    assert((b * pab + acc) * pbits + code == b * (pab * pbits) + (acc * pbits + code))
        by (nonlinear_arith);
    assert(acc * pbits + code < pab * pbits) by (nonlinear_arith)
        requires
            0 <= acc < pab,
            0 <= code < pbits,
    ;
    assert(0 <= acc * pbits) by (nonlinear_arith)
        requires
            0 <= acc,
            0 <= pbits,
    ;
}

/// Splitting the top byte off a `(8 + k)`-bit accumulator.
proof fn lemma_split_top_byte(b: int, acc: int, q: int)
    requires
        b >= 0,
        q > 0,
        0 <= acc < 256 * q,
    ensures
        0 <= acc / q < 256,
        0 <= acc % q < q,
        (b * 256 + acc / q) * q + acc % q == b * (256 * q) + acc,
{
    vstd::arithmetic::div_mod::lemma_fundamental_div_mod(acc, q);
    vstd::arithmetic::div_mod::lemma_div_pos_is_pos(acc, q);
    vstd::arithmetic::div_mod::lemma_mod_bound(acc, q);
    assert(acc / q < 256) by (nonlinear_arith)
        requires
            acc == q * (acc / q) + acc % q,
            acc % q >= 0,
            acc < 256 * q,
            q > 0,
    ;
    assert((b * 256 + acc / q) * q + acc % q == b * (256 * q) + acc) by (nonlinear_arith)
        requires
            acc == q * (acc / q) + acc % q,
    ;
}

/// `2^n` as a `u64`.
fn pow2_u64(n: u32) -> (r: u64)
    requires
        n < 64,
    ensures
        r == pow2(n as nat),
{
    proof {
        lemma_u64_pow2_no_overflow(n as nat);
        lemma_u64_shl_is_mul(1, n as u64);
    }
    1u64 << (n as u64)
}

/// The code length and code of symbol `s`.
fn huff_sym(s: usize) -> (r: (u32, u32))
    requires
        s < 257,
    ensures
        r.0 == huff_bits(s as int),
        r.1 == huff_code(s as int),
{
    match s {
        0 => (13, 0x1ff8),
        1 => (23, 0x7fffd8),
        2 => (28, 0xfffffe2),
        3 => (28, 0xfffffe3),
        4 => (28, 0xfffffe4),
        5 => (28, 0xfffffe5),
        6 => (28, 0xfffffe6),
        7 => (28, 0xfffffe7),
        8 => (28, 0xfffffe8),
        9 => (24, 0xffffea),
        10 => (30, 0x3ffffffc),
        11 => (28, 0xfffffe9),
        12 => (28, 0xfffffea),
        13 => (30, 0x3ffffffd),
        14 => (28, 0xfffffeb),
        15 => (28, 0xfffffec),
        16 => (28, 0xfffffed),
        17 => (28, 0xfffffee),
        18 => (28, 0xfffffef),
        19 => (28, 0xffffff0),
        20 => (28, 0xffffff1),
        21 => (28, 0xffffff2),
        22 => (30, 0x3ffffffe),
        23 => (28, 0xffffff3),
        24 => (28, 0xffffff4),
        25 => (28, 0xffffff5),
        26 => (28, 0xffffff6),
        27 => (28, 0xffffff7),
        28 => (28, 0xffffff8),
        29 => (28, 0xffffff9),
        30 => (28, 0xffffffa),
        31 => (28, 0xffffffb),
        32 => (6, 0x14),
        33 => (10, 0x3f8),
        34 => (10, 0x3f9),
        35 => (12, 0xffa),
        36 => (13, 0x1ff9),
        37 => (6, 0x15),
        38 => (8, 0xf8),
        39 => (11, 0x7fa),
        40 => (10, 0x3fa),
        41 => (10, 0x3fb),
        42 => (8, 0xf9),
        43 => (11, 0x7fb),
        44 => (8, 0xfa),
        45 => (6, 0x16),
        46 => (6, 0x17),
        47 => (6, 0x18),
        48 => (5, 0x0),
        49 => (5, 0x1),
        50 => (5, 0x2),
        51 => (6, 0x19),
        52 => (6, 0x1a),
        53 => (6, 0x1b),
        54 => (6, 0x1c),
        55 => (6, 0x1d),
        56 => (6, 0x1e),
        57 => (6, 0x1f),
        58 => (7, 0x5c),
        59 => (8, 0xfb),
        60 => (15, 0x7ffc),
        61 => (6, 0x20),
        62 => (12, 0xffb),
        63 => (10, 0x3fc),
        64 => (13, 0x1ffa),
        65 => (6, 0x21),
        66 => (7, 0x5d),
        67 => (7, 0x5e),
        68 => (7, 0x5f),
        69 => (7, 0x60),
        70 => (7, 0x61),
        71 => (7, 0x62),
        72 => (7, 0x63),
        73 => (7, 0x64),
        74 => (7, 0x65),
        75 => (7, 0x66),
        76 => (7, 0x67),
        77 => (7, 0x68),
        78 => (7, 0x69),
        79 => (7, 0x6a),
        80 => (7, 0x6b),
        81 => (7, 0x6c),
        82 => (7, 0x6d),
        83 => (7, 0x6e),
        84 => (7, 0x6f),
        85 => (7, 0x70),
        86 => (7, 0x71),
        87 => (7, 0x72),
        88 => (8, 0xfc),
        89 => (7, 0x73),
        90 => (8, 0xfd),
        91 => (13, 0x1ffb),
        92 => (19, 0x7fff0),
        93 => (13, 0x1ffc),
        94 => (14, 0x3ffc),
        95 => (6, 0x22),
        96 => (15, 0x7ffd),
        97 => (5, 0x3),
        98 => (6, 0x23),
        99 => (5, 0x4),
        100 => (6, 0x24),
        101 => (5, 0x5),
        102 => (6, 0x25),
        103 => (6, 0x26),
        104 => (6, 0x27),
        105 => (5, 0x6),
        106 => (7, 0x74),
        107 => (7, 0x75),
        108 => (6, 0x28),
        109 => (6, 0x29),
        110 => (6, 0x2a),
        111 => (5, 0x7),
        112 => (6, 0x2b),
        113 => (7, 0x76),
        114 => (6, 0x2c),
        115 => (5, 0x8),
        116 => (5, 0x9),
        117 => (6, 0x2d),
        118 => (7, 0x77),
        119 => (7, 0x78),
        120 => (7, 0x79),
        121 => (7, 0x7a),
        122 => (7, 0x7b),
        123 => (15, 0x7ffe),
        124 => (11, 0x7fc),
        125 => (14, 0x3ffd),
        126 => (13, 0x1ffd),
        127 => (28, 0xffffffc),
        128 => (20, 0xfffe6),
        129 => (22, 0x3fffd2),
        130 => (20, 0xfffe7),
        131 => (20, 0xfffe8),
        132 => (22, 0x3fffd3),
        133 => (22, 0x3fffd4),
        134 => (22, 0x3fffd5),
        135 => (23, 0x7fffd9),
        136 => (22, 0x3fffd6),
        137 => (23, 0x7fffda),
        138 => (23, 0x7fffdb),
        139 => (23, 0x7fffdc),
        140 => (23, 0x7fffdd),
        141 => (23, 0x7fffde),
        142 => (24, 0xffffeb),
        143 => (23, 0x7fffdf),
        144 => (24, 0xffffec),
        145 => (24, 0xffffed),
        146 => (22, 0x3fffd7),
        147 => (23, 0x7fffe0),
        148 => (24, 0xffffee),
        149 => (23, 0x7fffe1),
        150 => (23, 0x7fffe2),
        151 => (23, 0x7fffe3),
        152 => (23, 0x7fffe4),
        153 => (21, 0x1fffdc),
        154 => (22, 0x3fffd8),
        155 => (23, 0x7fffe5),
        156 => (22, 0x3fffd9),
        157 => (23, 0x7fffe6),
        158 => (23, 0x7fffe7),
        159 => (24, 0xffffef),
        160 => (22, 0x3fffda),
        161 => (21, 0x1fffdd),
        162 => (20, 0xfffe9),
        163 => (22, 0x3fffdb),
        164 => (22, 0x3fffdc),
        165 => (23, 0x7fffe8),
        166 => (23, 0x7fffe9),
        167 => (21, 0x1fffde),
        168 => (23, 0x7fffea),
        169 => (22, 0x3fffdd),
        170 => (22, 0x3fffde),
        171 => (24, 0xfffff0),
        172 => (21, 0x1fffdf),
        173 => (22, 0x3fffdf),
        174 => (23, 0x7fffeb),
        175 => (23, 0x7fffec),
        176 => (21, 0x1fffe0),
        177 => (21, 0x1fffe1),
        178 => (22, 0x3fffe0),
        179 => (21, 0x1fffe2),
        180 => (23, 0x7fffed),
        181 => (22, 0x3fffe1),
        182 => (23, 0x7fffee),
        183 => (23, 0x7fffef),
        184 => (20, 0xfffea),
        185 => (22, 0x3fffe2),
        186 => (22, 0x3fffe3),
        187 => (22, 0x3fffe4),
        188 => (23, 0x7ffff0),
        189 => (22, 0x3fffe5),
        190 => (22, 0x3fffe6),
        191 => (23, 0x7ffff1),
        192 => (26, 0x3ffffe0),
        193 => (26, 0x3ffffe1),
        194 => (20, 0xfffeb),
        195 => (19, 0x7fff1),
        196 => (22, 0x3fffe7),
        197 => (23, 0x7ffff2),
        198 => (22, 0x3fffe8),
        199 => (25, 0x1ffffec),
        200 => (26, 0x3ffffe2),
        201 => (26, 0x3ffffe3),
        202 => (26, 0x3ffffe4),
        203 => (27, 0x7ffffde),
        204 => (27, 0x7ffffdf),
        205 => (26, 0x3ffffe5),
        206 => (24, 0xfffff1),
        207 => (25, 0x1ffffed),
        208 => (19, 0x7fff2),
        209 => (21, 0x1fffe3),
        210 => (26, 0x3ffffe6),
        211 => (27, 0x7ffffe0),
        212 => (27, 0x7ffffe1),
        213 => (26, 0x3ffffe7),
        214 => (27, 0x7ffffe2),
        215 => (24, 0xfffff2),
        216 => (21, 0x1fffe4),
        217 => (21, 0x1fffe5),
        218 => (26, 0x3ffffe8),
        219 => (26, 0x3ffffe9),
        220 => (28, 0xffffffd),
        221 => (27, 0x7ffffe3),
        222 => (27, 0x7ffffe4),
        223 => (27, 0x7ffffe5),
        224 => (20, 0xfffec),
        225 => (24, 0xfffff3),
        226 => (20, 0xfffed),
        227 => (21, 0x1fffe6),
        228 => (22, 0x3fffe9),
        229 => (21, 0x1fffe7),
        230 => (21, 0x1fffe8),
        231 => (23, 0x7ffff3),
        232 => (22, 0x3fffea),
        233 => (22, 0x3fffeb),
        234 => (25, 0x1ffffee),
        235 => (25, 0x1ffffef),
        236 => (24, 0xfffff4),
        237 => (24, 0xfffff5),
        238 => (26, 0x3ffffea),
        239 => (23, 0x7ffff4),
        240 => (26, 0x3ffffeb),
        241 => (27, 0x7ffffe6),
        242 => (26, 0x3ffffec),
        243 => (26, 0x3ffffed),
        244 => (27, 0x7ffffe7),
        245 => (27, 0x7ffffe8),
        246 => (27, 0x7ffffe9),
        247 => (27, 0x7ffffea),
        248 => (27, 0x7ffffeb),
        249 => (28, 0xffffffe),
        250 => (27, 0x7ffffec),
        251 => (27, 0x7ffffed),
        252 => (27, 0x7ffffee),
        253 => (27, 0x7ffffef),
        254 => (27, 0x7fffff0),
        255 => (26, 0x3ffffee),
        256 => (30, 0x3fffffff),
        _ => (30, 0x3fffffff),
    }
}

/// The length in bytes of the Huffman coding of `data`.
pub fn encoded_len(data: &[u8]) -> (r: usize)
    requires
        huffman_bit_len(data@) <= usize::MAX,
    ensures
        r == huffman_encoded_len(data@),
{
    let mut bits: usize = 0;
    let mut i: usize = 0;
    while i < data.len()
        invariant
            i <= data.len(),
            bits == huffman_bit_len(data@.take(i as int)),
            huffman_bit_len(data@) <= usize::MAX,
        decreases data.len() - i,
    {
        proof {
            lemma_huff_take_step(data@, i as int);
            lemma_bit_len_take(data@, i + 1);
        }
        let (b, _) = huff_sym(data[i] as usize);
        bits = bits + b as usize;
        i = i + 1;
    }
    assert(data@.take(data@.len() as int) =~= data@);
    bits / 8 + if bits % 8 != 0 {
        1
    } else {
        0
    }
}

/// The Huffman coding of `data`.
pub fn encode_to_vec(data: &[u8]) -> (r: Vec<u8>)
    ensures
        r@ == huffman_encoding(data@),
{
    let mut out: Vec<u8> = Vec::new();
    let mut acc: u64 = 0;
    let mut acc_bits: u32 = 0;
    let mut i: usize = 0;
    proof {
        lemma2_to64();
    }
    while i < data.len()
        invariant
            i <= data.len(),
            acc_bits < 8,
            acc < pow2(acc_bits as nat),
            be_value(out@) * pow2(acc_bits as nat) + acc == huffman_value(data@.take(i as int)),
            out@.len() * 8 + acc_bits == huffman_bit_len(data@.take(i as int)),
        decreases data.len() - i,
    {
        let (bits, code) = huff_sym(data[i] as usize);
        proof {
            lemma_huff_take_step(data@, i as int);
            lemma_huff_table(data@[i as int] as int);
            lemma_pow2_adds(acc_bits as nat, bits as nat);
            lemma_pow2_pos(acc_bits as nat);
            lemma_append_code(
                be_value(out@) as int,
                acc as int,
                pow2(acc_bits as nat) as int,
                pow2(bits as nat) as int,
                code as int,
            );
            lemma_pow2_strictly_increases(acc_bits as nat, 8);
            lemma_pow2_strictly_increases(bits as nat, 31);
            lemma2_to64();
            assert(acc * pow2(bits as nat) + code < 0x80_0000_0000) by (nonlinear_arith)
                requires
                    acc < 256,
                    pow2(bits as nat) < 0x8000_0000,
                    code < pow2(bits as nat),
            ;
        }
        let p = pow2_u64(bits);
        acc = acc * p + code as u64;
        acc_bits = acc_bits + bits;
        while acc_bits >= 8
            invariant
                i < data.len(),
                acc_bits <= 37,
                acc < pow2(acc_bits as nat),
                be_value(out@) * pow2(acc_bits as nat) + acc == huffman_value(
                    data@.take(i + 1),
                ),
                out@.len() * 8 + acc_bits == huffman_bit_len(data@.take(i + 1)),
            decreases acc_bits,
        {
            let shift = acc_bits - 8;
            let q = pow2_u64(shift);
            proof {
                lemma_pow2_adds(8, shift as nat);
                lemma2_to64();
                lemma_pow2_pos(shift as nat);
                lemma_split_top_byte(be_value(out@) as int, acc as int, q as int);
            }
            let byte = acc / q;
            acc = acc % q;
            let ghost old_out = out@;
            out.push(byte as u8);
            proof {
                assert(out@.drop_last() =~= old_out);
            }
            acc_bits = shift;
        }
        i = i + 1;
    }
    assert(data@.take(data@.len() as int) =~= data@);
    let ghost v = huffman_value(data@);
    let ghost l = huffman_bit_len(data@);
    let ghost n0 = out@.len();
    if acc_bits == 0 {
        proof {
            lemma2_to64();
            assert(pow2(acc_bits as nat) == 1);
            assert(acc == 0);
            assert(be_value(out@) * pow2(acc_bits as nat) == be_value(out@));
            assert(huffman_value(data@.take(i as int)) == v);
            assert(huffman_encoded_len(data@) == n0);
            assert(huffman_padding(data@) == 0);
            assert(be_value(out@) == v);
        }
    }
    if acc_bits > 0 {
        let pad = 8 - acc_bits;
        let q = pow2_u64(pad);
        proof {
            lemma_pow2_adds(acc_bits as nat, pad as nat);
            lemma_pow2_pos(pad as nat);
            assert(acc * q + (q - 1) < pow2(acc_bits as nat) * q) by (nonlinear_arith)
                requires
                    acc < pow2(acc_bits as nat),
                    q > 0,
            ;
        }
        let byte = acc * q + (q - 1);
        let ghost old_out = out@;
        out.push(byte as u8);
        proof {
            assert(out@.drop_last() =~= old_out);
            assert(be_value(out@) == be_value(old_out) * 256 + byte);
            assert(be_value(old_out) * 256 + byte == (be_value(old_out) * pow2(acc_bits as nat)
                + acc) * q + q - 1) by (nonlinear_arith)
                requires
                    256 == pow2(acc_bits as nat) * q,
                    byte == acc * q + (q - 1),
            ;
            assert(huffman_encoded_len(data@) == n0 + 1);
            assert(huffman_padding(data@) == pad);
            assert(be_value(out@) == v * q + q - 1);
        }
    }
    proof {
        lemma_be_bytes_of_value(out@);
    }
    out
}

/// Writes the Huffman coding of `data` at the start of `buf`.
///
/// Returns the number of bytes written, or `None`, leaving `buf` as it was,
/// when `buf` is too short.
pub fn encode(buf: &mut [u8], data: &[u8]) -> (r: Option<usize>)
    requires
        huffman_bit_len(data@) <= usize::MAX,
    ensures
        old(buf)@.len() < huffman_encoded_len(data@) ==> r is None && final(buf)@ == old(buf)@,
        old(buf)@.len() >= huffman_encoded_len(data@) ==> r == Some(
            huffman_encoded_len(data@) as usize,
        ) && final(buf)@ == huffman_encoding(data@) + old(buf)@.skip(
            huffman_encoded_len(data@) as int,
        ),
{
    let required = encoded_len(data);
    if buf.len() < required {
        return None;
    }
    let enc = encode_to_vec(data);
    proof {
        lemma_be_bytes_len(
            (huffman_value(data@) * pow2(huffman_padding(data@)) + pow2(huffman_padding(data@))
                - 1) as nat,
            huffman_encoded_len(data@),
        );
    }
    let ghost orig = buf@;
    let mut i: usize = 0;
    while i < enc.len()
        invariant
            i <= enc@.len(),
            enc@.len() == required,
            required <= orig.len(),
            buf@.len() == orig.len(),
            forall|j: int| 0 <= j < i ==> buf@[j] == enc@[j],
            forall|j: int| i <= j < orig.len() ==> buf@[j] == orig[j],
        decreases enc.len() - i,
    {
        buf[i] = enc[i];
        i = i + 1;
    }
    assert(buf@ =~= enc@ + orig.skip(required as int));
    Some(required)
}

/// The symbol whose code is the top of the `ab`-bit accumulator `acc`: the
/// first in code table order.
fn match_symbol(acc: u64, ab: u32) -> (r: Option<usize>)
    requires
        ab < 64,
    ensures
        r matches Some(s) ==> s < 257 && sym_matches(acc as nat, ab as nat, s as int) && forall|
            t: int,
        | 0 <= t < s ==> !sym_matches(acc as nat, ab as nat, t),
        r is None ==> forall|t: int| 0 <= t < 257 ==> !sym_matches(acc as nat, ab as nat, t),
{
    let mut s: usize = 0;
    while s < 257
        invariant
            s <= 257,
            ab < 64,
            forall|t: int| 0 <= t < s ==> !sym_matches(acc as nat, ab as nat, t),
        decreases 257 - s,
    {
        let (bits, code) = huff_sym(s);
        if bits <= ab {
            let q = pow2_u64(ab - bits);
            proof {
                lemma_pow2_pos((ab - bits) as nat);
            }
            if acc / q == code as u64 {
                return Some(s);
            }
        }
        s = s + 1;
    }
    None
}

/// Decodes a Huffman-coded string.
///
/// Fails with `InvalidHuffman` on the EOS symbol, on padding that is longer
/// than seven bits or not all ones.
pub fn decode(data: &[u8]) -> (r: Result<Vec<u8>, QpackError>)
    ensures
        match huffman_decoding(data@) {
            Ok(s) => r matches Ok(x) && x@ == s,
            Err(e) => r == Err::<Vec<u8>, QpackError>(e),
        },
        r matches Ok(s) ==> data@ == huffman_encoding(s@),
        r matches Err(e) ==> e == QpackError::InvalidHuffman,
{
    let mut result: Vec<u8> = Vec::new();
    let mut acc: u64 = 0;
    let mut acc_bits: u32 = 0;
    let mut i: usize = 0;
    proof {
        lemma2_to64();
    }
    while i < data.len()
        invariant
            i <= data.len(),
            acc_bits <= 55,
            acc < pow2(acc_bits as nat),
            be_value(data@.take(i as int)) == huffman_value(result@) * pow2(acc_bits as nat)
                + acc,
            i * 8 == huffman_bit_len(result@) + acc_bits,
            read_bytes(data@, i as nat, acc as nat, acc_bits as nat, result@) == huffman_decoding(data@),
        decreases data.len() - i,
    {
        let byte = data[i];
        let ghost acc0: nat = acc as nat;
        let ghost ab0: nat = acc_bits as nat;
        let ghost out0 = result@;
        proof {
            assert(data@.take(i + 1).drop_last() =~= data@.take(i as int));
            lemma_pow2_adds(acc_bits as nat, 8);
            lemma_pow2_pos(acc_bits as nat);
            lemma_append_code(
                huffman_value(result@) as int,
                acc as int,
                pow2(acc_bits as nat) as int,
                256,
                byte as int,
            );
            lemma2_to64();
            vstd::arithmetic::power2::lemma2_to64_rest();
            if acc_bits < 55 {
                lemma_pow2_strictly_increases(acc_bits as nat, 55);
            }
            assert(acc * 256 + byte < 0x1_0000_0000_0000_0000) by (nonlinear_arith)
                requires
                    acc < pow2(acc_bits as nat),
                    pow2(acc_bits as nat) <= pow2(55),
                    pow2(55) == 0x80_0000_0000_0000,
            ;
        }
        acc = acc * 256 + byte as u64;
        acc_bits = acc_bits + 8;
        let ghost target = read_symbols(acc as nat, acc_bits as nat, result@);
        assert(read_bytes(data@, i as nat, acc0, ab0, out0) == match target {
            None => Err(QpackError::InvalidHuffman),
            Some((a, b, o)) => if b > 55 {
                Err(QpackError::InvalidHuffman)
            } else {
                read_bytes(data@, (i + 1) as nat, a, b, o)
            },
        });
        let mut go = true;
        while go && acc_bits >= 5
            invariant
                i < data.len(),
                read_symbols(acc as nat, acc_bits as nat, result@) == target,
                huffman_decoding(data@) == match target {
                    None => Err(QpackError::InvalidHuffman),
                    Some((a, b, o)) => if b > 55 {
                        Err(QpackError::InvalidHuffman)
                    } else {
                        read_bytes(data@, (i + 1) as nat, a, b, o)
                    },
                },
                !go ==> first_match(acc as nat, acc_bits as nat) is None,
                acc_bits <= 63,
                acc < pow2(acc_bits as nat),
                be_value(data@.take(i + 1)) == huffman_value(result@) * pow2(acc_bits as nat)
                    + acc,
                (i + 1) * 8 == huffman_bit_len(result@) + acc_bits,
            decreases 2 * acc_bits + if go { 1int } else { 0int },
        {
            match match_symbol(acc, acc_bits) {
                None => {
                    proof {
                        lemma_first_match(acc as nat, acc_bits as nat, 0);
                    }
                    go = false;
                },
                Some(s) => {
                    proof {
                        lemma_first_match(acc as nat, acc_bits as nat, s as int);
                        lemma_huff_table(s as int);
                    }
                    if s == 256 {
                        return Err(QpackError::InvalidHuffman);
                    }
                    let (bits, code) = huff_sym(s);
                    let rest = acc_bits - bits;
                    let q = pow2_u64(rest);
                    proof {
                        lemma_huff_table(s as int);
                        lemma_pow2_adds(bits as nat, rest as nat);
                        lemma_pow2_pos(rest as nat);
                        lemma_push_step(result@, s as u8);
                        vstd::arithmetic::div_mod::lemma_fundamental_div_mod(acc as int, q as int);
                        vstd::arithmetic::div_mod::lemma_mod_bound(acc as int, q as int);
                        assert(huffman_value(result@) * pow2(acc_bits as nat) + acc == (
                        huffman_value(result@) * pow2(bits as nat) + code) * q + acc % q)
                            by (nonlinear_arith)
                            requires
                                pow2(acc_bits as nat) == pow2(bits as nat) * q,
                                acc == q * code + acc % q,
                        ;
                    }
                    result.push(s as u8);
                    acc = acc % q;
                    acc_bits = rest;
                },
            }
        }
        assert(target == Some((acc as nat, acc_bits as nat, result@)));
        if acc_bits > 55 {
            return Err(QpackError::InvalidHuffman);
        }
        i = i + 1;
    }
    assert(data@.take(data@.len() as int) =~= data@);
    if acc_bits > 7 {
        return Err(QpackError::InvalidHuffman);
    }
    if acc_bits > 0 {
        let mask = pow2_u64(acc_bits) - 1;
        if acc != mask {
            return Err(QpackError::InvalidHuffman);
        }
    }
    proof {
        lemma_be_bytes_of_value(data@);
        assert(huffman_encoded_len(result@) == data@.len());
        assert(huffman_padding(result@) == acc_bits);
    }
    Ok(result)
}

} // verus!
