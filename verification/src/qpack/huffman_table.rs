//! The Huffman code is prefix-free: the 32-bit strings that start with a
//! symbol's code form an interval, and the intervals of the 257 symbols,
//! taken in the order of their codes, follow each other without overlap.

use vstd::prelude::*;
use vstd::arithmetic::power2::{pow2, lemma2_to64};
use crate::qpack::huffman::{huff_bits, huff_code, lemma_huff_table};

verus! {

/// The first 32-bit string that starts with the code of `s`.
pub open spec fn code_start(s: int) -> nat {
    huff_code(s) * pow2((32 - huff_bits(s)) as nat)
}

/// One past the last 32-bit string that starts with the code of `s`.
pub open spec fn code_end(s: int) -> nat {
    code_start(s) + pow2((32 - huff_bits(s)) as nat)
}

/// The symbol at position `j` when the symbols are sorted by code.
pub open spec fn code_order(j: int) -> int {
    if j == 0 {
        48
    } else if j == 1 {
        49
    } else if j == 2 {
        50
    } else if j == 3 {
        97
    } else if j == 4 {
        99
    } else if j == 5 {
        101
    } else if j == 6 {
        105
    } else if j == 7 {
        111
    } else if j == 8 {
        115
    } else if j == 9 {
        116
    } else if j == 10 {
        32
    } else if j == 11 {
        37
    } else if j == 12 {
        45
    } else if j == 13 {
        46
    } else if j == 14 {
        47
    } else if j == 15 {
        51
    } else if j == 16 {
        52
    } else if j == 17 {
        53
    } else if j == 18 {
        54
    } else if j == 19 {
        55
    } else if j == 20 {
        56
    } else if j == 21 {
        57
    } else if j == 22 {
        61
    } else if j == 23 {
        65
    } else if j == 24 {
        95
    } else if j == 25 {
        98
    } else if j == 26 {
        100
    } else if j == 27 {
        102
    } else if j == 28 {
        103
    } else if j == 29 {
        104
    } else if j == 30 {
        108
    } else if j == 31 {
        109
    } else if j == 32 {
        110
    } else if j == 33 {
        112
    } else if j == 34 {
        114
    } else if j == 35 {
        117
    } else if j == 36 {
        58
    } else if j == 37 {
        66
    } else if j == 38 {
        67
    } else if j == 39 {
        68
    } else if j == 40 {
        69
    } else if j == 41 {
        70
    } else if j == 42 {
        71
    } else if j == 43 {
        72
    } else if j == 44 {
        73
    } else if j == 45 {
        74
    } else if j == 46 {
        75
    } else if j == 47 {
        76
    } else if j == 48 {
        77
    } else if j == 49 {
        78
    } else if j == 50 {
        79
    } else if j == 51 {
        80
    } else if j == 52 {
        81
    } else if j == 53 {
        82
    } else if j == 54 {
        83
    } else if j == 55 {
        84
    } else if j == 56 {
        85
    } else if j == 57 {
        86
    } else if j == 58 {
        87
    } else if j == 59 {
        89
    } else if j == 60 {
        106
    } else if j == 61 {
        107
    } else if j == 62 {
        113
    } else if j == 63 {
        118
    } else if j == 64 {
        119
    } else if j == 65 {
        120
    } else if j == 66 {
        121
    } else if j == 67 {
        122
    } else if j == 68 {
        38
    } else if j == 69 {
        42
    } else if j == 70 {
        44
    } else if j == 71 {
        59
    } else if j == 72 {
        88
    } else if j == 73 {
        90
    } else if j == 74 {
        33
    } else if j == 75 {
        34
    } else if j == 76 {
        40
    } else if j == 77 {
        41
    } else if j == 78 {
        63
    } else if j == 79 {
        39
    } else if j == 80 {
        43
    } else if j == 81 {
        124
    } else if j == 82 {
        35
    } else if j == 83 {
        62
    } else if j == 84 {
        0
    } else if j == 85 {
        36
    } else if j == 86 {
        64
    } else if j == 87 {
        91
    } else if j == 88 {
        93
    } else if j == 89 {
        126
    } else if j == 90 {
        94
    } else if j == 91 {
        125
    } else if j == 92 {
        60
    } else if j == 93 {
        96
    } else if j == 94 {
        123
    } else if j == 95 {
        92
    } else if j == 96 {
        195
    } else if j == 97 {
        208
    } else if j == 98 {
        128
    } else if j == 99 {
        130
    } else if j == 100 {
        131
    } else if j == 101 {
        162
    } else if j == 102 {
        184
    } else if j == 103 {
        194
    } else if j == 104 {
        224
    } else if j == 105 {
        226
    } else if j == 106 {
        153
    } else if j == 107 {
        161
    } else if j == 108 {
        167
    } else if j == 109 {
        172
    } else if j == 110 {
        176
    } else if j == 111 {
        177
    } else if j == 112 {
        179
    } else if j == 113 {
        209
    } else if j == 114 {
        216
    } else if j == 115 {
        217
    } else if j == 116 {
        227
    } else if j == 117 {
        229
    } else if j == 118 {
        230
    } else if j == 119 {
        129
    } else if j == 120 {
        132
    } else if j == 121 {
        133
    } else if j == 122 {
        134
    } else if j == 123 {
        136
    } else if j == 124 {
        146
    } else if j == 125 {
        154
    } else if j == 126 {
        156
    } else if j == 127 {
        160
    } else if j == 128 {
        163
    } else if j == 129 {
        164
    } else if j == 130 {
        169
    } else if j == 131 {
        170
    } else if j == 132 {
        173
    } else if j == 133 {
        178
    } else if j == 134 {
        181
    } else if j == 135 {
        185
    } else if j == 136 {
        186
    } else if j == 137 {
        187
    } else if j == 138 {
        189
    } else if j == 139 {
        190
    } else if j == 140 {
        196
    } else if j == 141 {
        198
    } else if j == 142 {
        228
    } else if j == 143 {
        232
    } else if j == 144 {
        233
    } else if j == 145 {
        1
    } else if j == 146 {
        135
    } else if j == 147 {
        137
    } else if j == 148 {
        138
    } else if j == 149 {
        139
    } else if j == 150 {
        140
    } else if j == 151 {
        141
    } else if j == 152 {
        143
    } else if j == 153 {
        147
    } else if j == 154 {
        149
    } else if j == 155 {
        150
    } else if j == 156 {
        151
    } else if j == 157 {
        152
    } else if j == 158 {
        155
    } else if j == 159 {
        157
    } else if j == 160 {
        158
    } else if j == 161 {
        165
    } else if j == 162 {
        166
    } else if j == 163 {
        168
    } else if j == 164 {
        174
    } else if j == 165 {
        175
    } else if j == 166 {
        180
    } else if j == 167 {
        182
    } else if j == 168 {
        183
    } else if j == 169 {
        188
    } else if j == 170 {
        191
    } else if j == 171 {
        197
    } else if j == 172 {
        231
    } else if j == 173 {
        239
    } else if j == 174 {
        9
    } else if j == 175 {
        142
    } else if j == 176 {
        144
    } else if j == 177 {
        145
    } else if j == 178 {
        148
    } else if j == 179 {
        159
    } else if j == 180 {
        171
    } else if j == 181 {
        206
    } else if j == 182 {
        215
    } else if j == 183 {
        225
    } else if j == 184 {
        236
    } else if j == 185 {
        237
    } else if j == 186 {
        199
    } else if j == 187 {
        207
    } else if j == 188 {
        234
    } else if j == 189 {
        235
    } else if j == 190 {
        192
    } else if j == 191 {
        193
    } else if j == 192 {
        200
    } else if j == 193 {
        201
    } else if j == 194 {
        202
    } else if j == 195 {
        205
    } else if j == 196 {
        210
    } else if j == 197 {
        213
    } else if j == 198 {
        218
    } else if j == 199 {
        219
    } else if j == 200 {
        238
    } else if j == 201 {
        240
    } else if j == 202 {
        242
    } else if j == 203 {
        243
    } else if j == 204 {
        255
    } else if j == 205 {
        203
    } else if j == 206 {
        204
    } else if j == 207 {
        211
    } else if j == 208 {
        212
    } else if j == 209 {
        214
    } else if j == 210 {
        221
    } else if j == 211 {
        222
    } else if j == 212 {
        223
    } else if j == 213 {
        241
    } else if j == 214 {
        244
    } else if j == 215 {
        245
    } else if j == 216 {
        246
    } else if j == 217 {
        247
    } else if j == 218 {
        248
    } else if j == 219 {
        250
    } else if j == 220 {
        251
    } else if j == 221 {
        252
    } else if j == 222 {
        253
    } else if j == 223 {
        254
    } else if j == 224 {
        2
    } else if j == 225 {
        3
    } else if j == 226 {
        4
    } else if j == 227 {
        5
    } else if j == 228 {
        6
    } else if j == 229 {
        7
    } else if j == 230 {
        8
    } else if j == 231 {
        11
    } else if j == 232 {
        12
    } else if j == 233 {
        14
    } else if j == 234 {
        15
    } else if j == 235 {
        16
    } else if j == 236 {
        17
    } else if j == 237 {
        18
    } else if j == 238 {
        19
    } else if j == 239 {
        20
    } else if j == 240 {
        21
    } else if j == 241 {
        23
    } else if j == 242 {
        24
    } else if j == 243 {
        25
    } else if j == 244 {
        26
    } else if j == 245 {
        27
    } else if j == 246 {
        28
    } else if j == 247 {
        29
    } else if j == 248 {
        30
    } else if j == 249 {
        31
    } else if j == 250 {
        127
    } else if j == 251 {
        220
    } else if j == 252 {
        249
    } else if j == 253 {
        10
    } else if j == 254 {
        13
    } else if j == 255 {
        22
    } else if j == 256 {
        256
    } else {
        0
    }
}

/// The position of symbol `s` when the symbols are sorted by code.
pub open spec fn code_rank(s: int) -> int {
    if s == 0 {
        84
    } else if s == 1 {
        145
    } else if s == 2 {
        224
    } else if s == 3 {
        225
    } else if s == 4 {
        226
    } else if s == 5 {
        227
    } else if s == 6 {
        228
    } else if s == 7 {
        229
    } else if s == 8 {
        230
    } else if s == 9 {
        174
    } else if s == 10 {
        253
    } else if s == 11 {
        231
    } else if s == 12 {
        232
    } else if s == 13 {
        254
    } else if s == 14 {
        233
    } else if s == 15 {
        234
    } else if s == 16 {
        235
    } else if s == 17 {
        236
    } else if s == 18 {
        237
    } else if s == 19 {
        238
    } else if s == 20 {
        239
    } else if s == 21 {
        240
    } else if s == 22 {
        255
    } else if s == 23 {
        241
    } else if s == 24 {
        242
    } else if s == 25 {
        243
    } else if s == 26 {
        244
    } else if s == 27 {
        245
    } else if s == 28 {
        246
    } else if s == 29 {
        247
    } else if s == 30 {
        248
    } else if s == 31 {
        249
    } else if s == 32 {
        10
    } else if s == 33 {
        74
    } else if s == 34 {
        75
    } else if s == 35 {
        82
    } else if s == 36 {
        85
    } else if s == 37 {
        11
    } else if s == 38 {
        68
    } else if s == 39 {
        79
    } else if s == 40 {
        76
    } else if s == 41 {
        77
    } else if s == 42 {
        69
    } else if s == 43 {
        80
    } else if s == 44 {
        70
    } else if s == 45 {
        12
    } else if s == 46 {
        13
    } else if s == 47 {
        14
    } else if s == 48 {
        0
    } else if s == 49 {
        1
    } else if s == 50 {
        2
    } else if s == 51 {
        15
    } else if s == 52 {
        16
    } else if s == 53 {
        17
    } else if s == 54 {
        18
    } else if s == 55 {
        19
    } else if s == 56 {
        20
    } else if s == 57 {
        21
    } else if s == 58 {
        36
    } else if s == 59 {
        71
    } else if s == 60 {
        92
    } else if s == 61 {
        22
    } else if s == 62 {
        83
    } else if s == 63 {
        78
    } else if s == 64 {
        86
    } else if s == 65 {
        23
    } else if s == 66 {
        37
    } else if s == 67 {
        38
    } else if s == 68 {
        39
    } else if s == 69 {
        40
    } else if s == 70 {
        41
    } else if s == 71 {
        42
    } else if s == 72 {
        43
    } else if s == 73 {
        44
    } else if s == 74 {
        45
    } else if s == 75 {
        46
    } else if s == 76 {
        47
    } else if s == 77 {
        48
    } else if s == 78 {
        49
    } else if s == 79 {
        50
    } else if s == 80 {
        51
    } else if s == 81 {
        52
    } else if s == 82 {
        53
    } else if s == 83 {
        54
    } else if s == 84 {
        55
    } else if s == 85 {
        56
    } else if s == 86 {
        57
    } else if s == 87 {
        58
    } else if s == 88 {
        72
    } else if s == 89 {
        59
    } else if s == 90 {
        73
    } else if s == 91 {
        87
    } else if s == 92 {
        95
    } else if s == 93 {
        88
    } else if s == 94 {
        90
    } else if s == 95 {
        24
    } else if s == 96 {
        93
    } else if s == 97 {
        3
    } else if s == 98 {
        25
    } else if s == 99 {
        4
    } else if s == 100 {
        26
    } else if s == 101 {
        5
    } else if s == 102 {
        27
    } else if s == 103 {
        28
    } else if s == 104 {
        29
    } else if s == 105 {
        6
    } else if s == 106 {
        60
    } else if s == 107 {
        61
    } else if s == 108 {
        30
    } else if s == 109 {
        31
    } else if s == 110 {
        32
    } else if s == 111 {
        7
    } else if s == 112 {
        33
    } else if s == 113 {
        62
    } else if s == 114 {
        34
    } else if s == 115 {
        8
    } else if s == 116 {
        9
    } else if s == 117 {
        35
    } else if s == 118 {
        63
    } else if s == 119 {
        64
    } else if s == 120 {
        65
    } else if s == 121 {
        66
    } else if s == 122 {
        67
    } else if s == 123 {
        94
    } else if s == 124 {
        81
    } else if s == 125 {
        91
    } else if s == 126 {
        89
    } else if s == 127 {
        250
    } else if s == 128 {
        98
    } else if s == 129 {
        119
    } else if s == 130 {
        99
    } else if s == 131 {
        100
    } else if s == 132 {
        120
    } else if s == 133 {
        121
    } else if s == 134 {
        122
    } else if s == 135 {
        146
    } else if s == 136 {
        123
    } else if s == 137 {
        147
    } else if s == 138 {
        148
    } else if s == 139 {
        149
    } else if s == 140 {
        150
    } else if s == 141 {
        151
    } else if s == 142 {
        175
    } else if s == 143 {
        152
    } else if s == 144 {
        176
    } else if s == 145 {
        177
    } else if s == 146 {
        124
    } else if s == 147 {
        153
    } else if s == 148 {
        178
    } else if s == 149 {
        154
    } else if s == 150 {
        155
    } else if s == 151 {
        156
    } else if s == 152 {
        157
    } else if s == 153 {
        106
    } else if s == 154 {
        125
    } else if s == 155 {
        158
    } else if s == 156 {
        126
    } else if s == 157 {
        159
    } else if s == 158 {
        160
    } else if s == 159 {
        179
    } else if s == 160 {
        127
    } else if s == 161 {
        107
    } else if s == 162 {
        101
    } else if s == 163 {
        128
    } else if s == 164 {
        129
    } else if s == 165 {
        161
    } else if s == 166 {
        162
    } else if s == 167 {
        108
    } else if s == 168 {
        163
    } else if s == 169 {
        130
    } else if s == 170 {
        131
    } else if s == 171 {
        180
    } else if s == 172 {
        109
    } else if s == 173 {
        132
    } else if s == 174 {
        164
    } else if s == 175 {
        165
    } else if s == 176 {
        110
    } else if s == 177 {
        111
    } else if s == 178 {
        133
    } else if s == 179 {
        112
    } else if s == 180 {
        166
    } else if s == 181 {
        134
    } else if s == 182 {
        167
    } else if s == 183 {
        168
    } else if s == 184 {
        102
    } else if s == 185 {
        135
    } else if s == 186 {
        136
    } else if s == 187 {
        137
    } else if s == 188 {
        169
    } else if s == 189 {
        138
    } else if s == 190 {
        139
    } else if s == 191 {
        170
    } else if s == 192 {
        190
    } else if s == 193 {
        191
    } else if s == 194 {
        103
    } else if s == 195 {
        96
    } else if s == 196 {
        140
    } else if s == 197 {
        171
    } else if s == 198 {
        141
    } else if s == 199 {
        186
    } else if s == 200 {
        192
    } else if s == 201 {
        193
    } else if s == 202 {
        194
    } else if s == 203 {
        205
    } else if s == 204 {
        206
    } else if s == 205 {
        195
    } else if s == 206 {
        181
    } else if s == 207 {
        187
    } else if s == 208 {
        97
    } else if s == 209 {
        113
    } else if s == 210 {
        196
    } else if s == 211 {
        207
    } else if s == 212 {
        208
    } else if s == 213 {
        197
    } else if s == 214 {
        209
    } else if s == 215 {
        182
    } else if s == 216 {
        114
    } else if s == 217 {
        115
    } else if s == 218 {
        198
    } else if s == 219 {
        199
    } else if s == 220 {
        251
    } else if s == 221 {
        210
    } else if s == 222 {
        211
    } else if s == 223 {
        212
    } else if s == 224 {
        104
    } else if s == 225 {
        183
    } else if s == 226 {
        105
    } else if s == 227 {
        116
    } else if s == 228 {
        142
    } else if s == 229 {
        117
    } else if s == 230 {
        118
    } else if s == 231 {
        172
    } else if s == 232 {
        143
    } else if s == 233 {
        144
    } else if s == 234 {
        188
    } else if s == 235 {
        189
    } else if s == 236 {
        184
    } else if s == 237 {
        185
    } else if s == 238 {
        200
    } else if s == 239 {
        173
    } else if s == 240 {
        201
    } else if s == 241 {
        213
    } else if s == 242 {
        202
    } else if s == 243 {
        203
    } else if s == 244 {
        214
    } else if s == 245 {
        215
    } else if s == 246 {
        216
    } else if s == 247 {
        217
    } else if s == 248 {
        218
    } else if s == 249 {
        252
    } else if s == 250 {
        219
    } else if s == 251 {
        220
    } else if s == 252 {
        221
    } else if s == 253 {
        222
    } else if s == 254 {
        223
    } else if s == 255 {
        204
    } else if s == 256 {
        256
    } else {
        0
    }
}

proof fn lemma_rank_0(s: int)
    requires
        0 <= s < 16,
    ensures
        0 <= code_rank(s) < 257,
        code_order(code_rank(s)) == s,
{
    if s == 0 {
        assert(code_order(84) == 0);
    } else if s == 1 {
        assert(code_order(145) == 1);
    } else if s == 2 {
        assert(code_order(224) == 2);
    } else if s == 3 {
        assert(code_order(225) == 3);
    } else if s == 4 {
        assert(code_order(226) == 4);
    } else if s == 5 {
        assert(code_order(227) == 5);
    } else if s == 6 {
        assert(code_order(228) == 6);
    } else if s == 7 {
        assert(code_order(229) == 7);
    } else if s == 8 {
        assert(code_order(230) == 8);
    } else if s == 9 {
        assert(code_order(174) == 9);
    } else if s == 10 {
        assert(code_order(253) == 10);
    } else if s == 11 {
        assert(code_order(231) == 11);
    } else if s == 12 {
        assert(code_order(232) == 12);
    } else if s == 13 {
        assert(code_order(254) == 13);
    } else if s == 14 {
        assert(code_order(233) == 14);
    } else if s == 15 {
        assert(code_order(234) == 15);
    } else {
    }
}

proof fn lemma_rank_1(s: int)
    requires
        16 <= s < 32,
    ensures
        0 <= code_rank(s) < 257,
        code_order(code_rank(s)) == s,
{
    if s == 16 {
        assert(code_order(235) == 16);
    } else if s == 17 {
        assert(code_order(236) == 17);
    } else if s == 18 {
        assert(code_order(237) == 18);
    } else if s == 19 {
        assert(code_order(238) == 19);
    } else if s == 20 {
        assert(code_order(239) == 20);
    } else if s == 21 {
        assert(code_order(240) == 21);
    } else if s == 22 {
        assert(code_order(255) == 22);
    } else if s == 23 {
        assert(code_order(241) == 23);
    } else if s == 24 {
        assert(code_order(242) == 24);
    } else if s == 25 {
        assert(code_order(243) == 25);
    } else if s == 26 {
        assert(code_order(244) == 26);
    } else if s == 27 {
        assert(code_order(245) == 27);
    } else if s == 28 {
        assert(code_order(246) == 28);
    } else if s == 29 {
        assert(code_order(247) == 29);
    } else if s == 30 {
        assert(code_order(248) == 30);
    } else if s == 31 {
        assert(code_order(249) == 31);
    } else {
    }
}

proof fn lemma_rank_2(s: int)
    requires
        32 <= s < 48,
    ensures
        0 <= code_rank(s) < 257,
        code_order(code_rank(s)) == s,
{
    if s == 32 {
        assert(code_order(10) == 32);
    } else if s == 33 {
        assert(code_order(74) == 33);
    } else if s == 34 {
        assert(code_order(75) == 34);
    } else if s == 35 {
        assert(code_order(82) == 35);
    } else if s == 36 {
        assert(code_order(85) == 36);
    } else if s == 37 {
        assert(code_order(11) == 37);
    } else if s == 38 {
        assert(code_order(68) == 38);
    } else if s == 39 {
        assert(code_order(79) == 39);
    } else if s == 40 {
        assert(code_order(76) == 40);
    } else if s == 41 {
        assert(code_order(77) == 41);
    } else if s == 42 {
        assert(code_order(69) == 42);
    } else if s == 43 {
        assert(code_order(80) == 43);
    } else if s == 44 {
        assert(code_order(70) == 44);
    } else if s == 45 {
        assert(code_order(12) == 45);
    } else if s == 46 {
        assert(code_order(13) == 46);
    } else if s == 47 {
        assert(code_order(14) == 47);
    } else {
    }
}

proof fn lemma_rank_3(s: int)
    requires
        48 <= s < 64,
    ensures
        0 <= code_rank(s) < 257,
        code_order(code_rank(s)) == s,
{
    if s == 48 {
        assert(code_order(0) == 48);
    } else if s == 49 {
        assert(code_order(1) == 49);
    } else if s == 50 {
        assert(code_order(2) == 50);
    } else if s == 51 {
        assert(code_order(15) == 51);
    } else if s == 52 {
        assert(code_order(16) == 52);
    } else if s == 53 {
        assert(code_order(17) == 53);
    } else if s == 54 {
        assert(code_order(18) == 54);
    } else if s == 55 {
        assert(code_order(19) == 55);
    } else if s == 56 {
        assert(code_order(20) == 56);
    } else if s == 57 {
        assert(code_order(21) == 57);
    } else if s == 58 {
        assert(code_order(36) == 58);
    } else if s == 59 {
        assert(code_order(71) == 59);
    } else if s == 60 {
        assert(code_order(92) == 60);
    } else if s == 61 {
        assert(code_order(22) == 61);
    } else if s == 62 {
        assert(code_order(83) == 62);
    } else if s == 63 {
        assert(code_order(78) == 63);
    } else {
    }
}

proof fn lemma_rank_4(s: int)
    requires
        64 <= s < 80,
    ensures
        0 <= code_rank(s) < 257,
        code_order(code_rank(s)) == s,
{
    if s == 64 {
        assert(code_order(86) == 64);
    } else if s == 65 {
        assert(code_order(23) == 65);
    } else if s == 66 {
        assert(code_order(37) == 66);
    } else if s == 67 {
        assert(code_order(38) == 67);
    } else if s == 68 {
        assert(code_order(39) == 68);
    } else if s == 69 {
        assert(code_order(40) == 69);
    } else if s == 70 {
        assert(code_order(41) == 70);
    } else if s == 71 {
        assert(code_order(42) == 71);
    } else if s == 72 {
        assert(code_order(43) == 72);
    } else if s == 73 {
        assert(code_order(44) == 73);
    } else if s == 74 {
        assert(code_order(45) == 74);
    } else if s == 75 {
        assert(code_order(46) == 75);
    } else if s == 76 {
        assert(code_order(47) == 76);
    } else if s == 77 {
        assert(code_order(48) == 77);
    } else if s == 78 {
        assert(code_order(49) == 78);
    } else if s == 79 {
        assert(code_order(50) == 79);
    } else {
    }
}

proof fn lemma_rank_5(s: int)
    requires
        80 <= s < 96,
    ensures
        0 <= code_rank(s) < 257,
        code_order(code_rank(s)) == s,
{
    if s == 80 {
        assert(code_order(51) == 80);
    } else if s == 81 {
        assert(code_order(52) == 81);
    } else if s == 82 {
        assert(code_order(53) == 82);
    } else if s == 83 {
        assert(code_order(54) == 83);
    } else if s == 84 {
        assert(code_order(55) == 84);
    } else if s == 85 {
        assert(code_order(56) == 85);
    } else if s == 86 {
        assert(code_order(57) == 86);
    } else if s == 87 {
        assert(code_order(58) == 87);
    } else if s == 88 {
        assert(code_order(72) == 88);
    } else if s == 89 {
        assert(code_order(59) == 89);
    } else if s == 90 {
        assert(code_order(73) == 90);
    } else if s == 91 {
        assert(code_order(87) == 91);
    } else if s == 92 {
        assert(code_order(95) == 92);
    } else if s == 93 {
        assert(code_order(88) == 93);
    } else if s == 94 {
        assert(code_order(90) == 94);
    } else if s == 95 {
        assert(code_order(24) == 95);
    } else {
    }
}

proof fn lemma_rank_6(s: int)
    requires
        96 <= s < 112,
    ensures
        0 <= code_rank(s) < 257,
        code_order(code_rank(s)) == s,
{
    if s == 96 {
        assert(code_order(93) == 96);
    } else if s == 97 {
        assert(code_order(3) == 97);
    } else if s == 98 {
        assert(code_order(25) == 98);
    } else if s == 99 {
        assert(code_order(4) == 99);
    } else if s == 100 {
        assert(code_order(26) == 100);
    } else if s == 101 {
        assert(code_order(5) == 101);
    } else if s == 102 {
        assert(code_order(27) == 102);
    } else if s == 103 {
        assert(code_order(28) == 103);
    } else if s == 104 {
        assert(code_order(29) == 104);
    } else if s == 105 {
        assert(code_order(6) == 105);
    } else if s == 106 {
        assert(code_order(60) == 106);
    } else if s == 107 {
        assert(code_order(61) == 107);
    } else if s == 108 {
        assert(code_order(30) == 108);
    } else if s == 109 {
        assert(code_order(31) == 109);
    } else if s == 110 {
        assert(code_order(32) == 110);
    } else if s == 111 {
        assert(code_order(7) == 111);
    } else {
    }
}

proof fn lemma_rank_7(s: int)
    requires
        112 <= s < 128,
    ensures
        0 <= code_rank(s) < 257,
        code_order(code_rank(s)) == s,
{
    if s == 112 {
        assert(code_order(33) == 112);
    } else if s == 113 {
        assert(code_order(62) == 113);
    } else if s == 114 {
        assert(code_order(34) == 114);
    } else if s == 115 {
        assert(code_order(8) == 115);
    } else if s == 116 {
        assert(code_order(9) == 116);
    } else if s == 117 {
        assert(code_order(35) == 117);
    } else if s == 118 {
        assert(code_order(63) == 118);
    } else if s == 119 {
        assert(code_order(64) == 119);
    } else if s == 120 {
        assert(code_order(65) == 120);
    } else if s == 121 {
        assert(code_order(66) == 121);
    } else if s == 122 {
        assert(code_order(67) == 122);
    } else if s == 123 {
        assert(code_order(94) == 123);
    } else if s == 124 {
        assert(code_order(81) == 124);
    } else if s == 125 {
        assert(code_order(91) == 125);
    } else if s == 126 {
        assert(code_order(89) == 126);
    } else if s == 127 {
        assert(code_order(250) == 127);
    } else {
    }
}

proof fn lemma_rank_8(s: int)
    requires
        128 <= s < 144,
    ensures
        0 <= code_rank(s) < 257,
        code_order(code_rank(s)) == s,
{
    if s == 128 {
        assert(code_order(98) == 128);
    } else if s == 129 {
        assert(code_order(119) == 129);
    } else if s == 130 {
        assert(code_order(99) == 130);
    } else if s == 131 {
        assert(code_order(100) == 131);
    } else if s == 132 {
        assert(code_order(120) == 132);
    } else if s == 133 {
        assert(code_order(121) == 133);
    } else if s == 134 {
        assert(code_order(122) == 134);
    } else if s == 135 {
        assert(code_order(146) == 135);
    } else if s == 136 {
        assert(code_order(123) == 136);
    } else if s == 137 {
        assert(code_order(147) == 137);
    } else if s == 138 {
        assert(code_order(148) == 138);
    } else if s == 139 {
        assert(code_order(149) == 139);
    } else if s == 140 {
        assert(code_order(150) == 140);
    } else if s == 141 {
        assert(code_order(151) == 141);
    } else if s == 142 {
        assert(code_order(175) == 142);
    } else if s == 143 {
        assert(code_order(152) == 143);
    } else {
    }
}

proof fn lemma_rank_9(s: int)
    requires
        144 <= s < 160,
    ensures
        0 <= code_rank(s) < 257,
        code_order(code_rank(s)) == s,
{
    if s == 144 {
        assert(code_order(176) == 144);
    } else if s == 145 {
        assert(code_order(177) == 145);
    } else if s == 146 {
        assert(code_order(124) == 146);
    } else if s == 147 {
        assert(code_order(153) == 147);
    } else if s == 148 {
        assert(code_order(178) == 148);
    } else if s == 149 {
        assert(code_order(154) == 149);
    } else if s == 150 {
        assert(code_order(155) == 150);
    } else if s == 151 {
        assert(code_order(156) == 151);
    } else if s == 152 {
        assert(code_order(157) == 152);
    } else if s == 153 {
        assert(code_order(106) == 153);
    } else if s == 154 {
        assert(code_order(125) == 154);
    } else if s == 155 {
        assert(code_order(158) == 155);
    } else if s == 156 {
        assert(code_order(126) == 156);
    } else if s == 157 {
        assert(code_order(159) == 157);
    } else if s == 158 {
        assert(code_order(160) == 158);
    } else if s == 159 {
        assert(code_order(179) == 159);
    } else {
    }
}

proof fn lemma_rank_10(s: int)
    requires
        160 <= s < 176,
    ensures
        0 <= code_rank(s) < 257,
        code_order(code_rank(s)) == s,
{
    if s == 160 {
        assert(code_order(127) == 160);
    } else if s == 161 {
        assert(code_order(107) == 161);
    } else if s == 162 {
        assert(code_order(101) == 162);
    } else if s == 163 {
        assert(code_order(128) == 163);
    } else if s == 164 {
        assert(code_order(129) == 164);
    } else if s == 165 {
        assert(code_order(161) == 165);
    } else if s == 166 {
        assert(code_order(162) == 166);
    } else if s == 167 {
        assert(code_order(108) == 167);
    } else if s == 168 {
        assert(code_order(163) == 168);
    } else if s == 169 {
        assert(code_order(130) == 169);
    } else if s == 170 {
        assert(code_order(131) == 170);
    } else if s == 171 {
        assert(code_order(180) == 171);
    } else if s == 172 {
        assert(code_order(109) == 172);
    } else if s == 173 {
        assert(code_order(132) == 173);
    } else if s == 174 {
        assert(code_order(164) == 174);
    } else if s == 175 {
        assert(code_order(165) == 175);
    } else {
    }
}

proof fn lemma_rank_11(s: int)
    requires
        176 <= s < 192,
    ensures
        0 <= code_rank(s) < 257,
        code_order(code_rank(s)) == s,
{
    if s == 176 {
        assert(code_order(110) == 176);
    } else if s == 177 {
        assert(code_order(111) == 177);
    } else if s == 178 {
        assert(code_order(133) == 178);
    } else if s == 179 {
        assert(code_order(112) == 179);
    } else if s == 180 {
        assert(code_order(166) == 180);
    } else if s == 181 {
        assert(code_order(134) == 181);
    } else if s == 182 {
        assert(code_order(167) == 182);
    } else if s == 183 {
        assert(code_order(168) == 183);
    } else if s == 184 {
        assert(code_order(102) == 184);
    } else if s == 185 {
        assert(code_order(135) == 185);
    } else if s == 186 {
        assert(code_order(136) == 186);
    } else if s == 187 {
        assert(code_order(137) == 187);
    } else if s == 188 {
        assert(code_order(169) == 188);
    } else if s == 189 {
        assert(code_order(138) == 189);
    } else if s == 190 {
        assert(code_order(139) == 190);
    } else if s == 191 {
        assert(code_order(170) == 191);
    } else {
    }
}

proof fn lemma_rank_12(s: int)
    requires
        192 <= s < 208,
    ensures
        0 <= code_rank(s) < 257,
        code_order(code_rank(s)) == s,
{
    if s == 192 {
        assert(code_order(190) == 192);
    } else if s == 193 {
        assert(code_order(191) == 193);
    } else if s == 194 {
        assert(code_order(103) == 194);
    } else if s == 195 {
        assert(code_order(96) == 195);
    } else if s == 196 {
        assert(code_order(140) == 196);
    } else if s == 197 {
        assert(code_order(171) == 197);
    } else if s == 198 {
        assert(code_order(141) == 198);
    } else if s == 199 {
        assert(code_order(186) == 199);
    } else if s == 200 {
        assert(code_order(192) == 200);
    } else if s == 201 {
        assert(code_order(193) == 201);
    } else if s == 202 {
        assert(code_order(194) == 202);
    } else if s == 203 {
        assert(code_order(205) == 203);
    } else if s == 204 {
        assert(code_order(206) == 204);
    } else if s == 205 {
        assert(code_order(195) == 205);
    } else if s == 206 {
        assert(code_order(181) == 206);
    } else if s == 207 {
        assert(code_order(187) == 207);
    } else {
    }
}

proof fn lemma_rank_13(s: int)
    requires
        208 <= s < 224,
    ensures
        0 <= code_rank(s) < 257,
        code_order(code_rank(s)) == s,
{
    if s == 208 {
        assert(code_order(97) == 208);
    } else if s == 209 {
        assert(code_order(113) == 209);
    } else if s == 210 {
        assert(code_order(196) == 210);
    } else if s == 211 {
        assert(code_order(207) == 211);
    } else if s == 212 {
        assert(code_order(208) == 212);
    } else if s == 213 {
        assert(code_order(197) == 213);
    } else if s == 214 {
        assert(code_order(209) == 214);
    } else if s == 215 {
        assert(code_order(182) == 215);
    } else if s == 216 {
        assert(code_order(114) == 216);
    } else if s == 217 {
        assert(code_order(115) == 217);
    } else if s == 218 {
        assert(code_order(198) == 218);
    } else if s == 219 {
        assert(code_order(199) == 219);
    } else if s == 220 {
        assert(code_order(251) == 220);
    } else if s == 221 {
        assert(code_order(210) == 221);
    } else if s == 222 {
        assert(code_order(211) == 222);
    } else if s == 223 {
        assert(code_order(212) == 223);
    } else {
    }
}

proof fn lemma_rank_14(s: int)
    requires
        224 <= s < 240,
    ensures
        0 <= code_rank(s) < 257,
        code_order(code_rank(s)) == s,
{
    if s == 224 {
        assert(code_order(104) == 224);
    } else if s == 225 {
        assert(code_order(183) == 225);
    } else if s == 226 {
        assert(code_order(105) == 226);
    } else if s == 227 {
        assert(code_order(116) == 227);
    } else if s == 228 {
        assert(code_order(142) == 228);
    } else if s == 229 {
        assert(code_order(117) == 229);
    } else if s == 230 {
        assert(code_order(118) == 230);
    } else if s == 231 {
        assert(code_order(172) == 231);
    } else if s == 232 {
        assert(code_order(143) == 232);
    } else if s == 233 {
        assert(code_order(144) == 233);
    } else if s == 234 {
        assert(code_order(188) == 234);
    } else if s == 235 {
        assert(code_order(189) == 235);
    } else if s == 236 {
        assert(code_order(184) == 236);
    } else if s == 237 {
        assert(code_order(185) == 237);
    } else if s == 238 {
        assert(code_order(200) == 238);
    } else if s == 239 {
        assert(code_order(173) == 239);
    } else {
    }
}

proof fn lemma_rank_15(s: int)
    requires
        240 <= s < 256,
    ensures
        0 <= code_rank(s) < 257,
        code_order(code_rank(s)) == s,
{
    if s == 240 {
        assert(code_order(201) == 240);
    } else if s == 241 {
        assert(code_order(213) == 241);
    } else if s == 242 {
        assert(code_order(202) == 242);
    } else if s == 243 {
        assert(code_order(203) == 243);
    } else if s == 244 {
        assert(code_order(214) == 244);
    } else if s == 245 {
        assert(code_order(215) == 245);
    } else if s == 246 {
        assert(code_order(216) == 246);
    } else if s == 247 {
        assert(code_order(217) == 247);
    } else if s == 248 {
        assert(code_order(218) == 248);
    } else if s == 249 {
        assert(code_order(252) == 249);
    } else if s == 250 {
        assert(code_order(219) == 250);
    } else if s == 251 {
        assert(code_order(220) == 251);
    } else if s == 252 {
        assert(code_order(221) == 252);
    } else if s == 253 {
        assert(code_order(222) == 253);
    } else if s == 254 {
        assert(code_order(223) == 254);
    } else if s == 255 {
        assert(code_order(204) == 255);
    } else {
    }
}

proof fn lemma_rank_16(s: int)
    requires
        256 <= s < 257,
    ensures
        0 <= code_rank(s) < 257,
        code_order(code_rank(s)) == s,
{
    if s == 256 {
        assert(code_order(256) == 256);
    } else {
    }
}

proof fn lemma_adjacent_0(j: int)
    requires
        0 <= j < 16,
    ensures
        code_end(code_order(j)) <= code_start(code_order(j + 1)),
{
    lemma2_to64();
    if j == 0 {
        assert(code_order(0) == 48 && code_order(1) == 49);
        assert(huff_bits(48) == 5 && huff_bits(49) == 5);
        assert(huff_code(48) == 0 && huff_code(49) == 1);
        assert(code_end(48) <= code_start(49)) by (nonlinear_arith)
            requires
                huff_bits(48) == 5,
                huff_bits(49) == 5,
                huff_code(48) == 0,
                huff_code(49) == 1,
                pow2(27) == 134217728,
                pow2(27) == 134217728,
        ;
    } else if j == 1 {
        assert(code_order(1) == 49 && code_order(2) == 50);
        assert(huff_bits(49) == 5 && huff_bits(50) == 5);
        assert(huff_code(49) == 1 && huff_code(50) == 2);
        assert(code_end(49) <= code_start(50)) by (nonlinear_arith)
            requires
                huff_bits(49) == 5,
                huff_bits(50) == 5,
                huff_code(49) == 1,
                huff_code(50) == 2,
                pow2(27) == 134217728,
                pow2(27) == 134217728,
        ;
    } else if j == 2 {
        assert(code_order(2) == 50 && code_order(3) == 97);
        assert(huff_bits(50) == 5 && huff_bits(97) == 5);
        assert(huff_code(50) == 2 && huff_code(97) == 3);
        assert(code_end(50) <= code_start(97)) by (nonlinear_arith)
            requires
                huff_bits(50) == 5,
                huff_bits(97) == 5,
                huff_code(50) == 2,
                huff_code(97) == 3,
                pow2(27) == 134217728,
                pow2(27) == 134217728,
        ;
    } else if j == 3 {
        assert(code_order(3) == 97 && code_order(4) == 99);
        assert(huff_bits(97) == 5 && huff_bits(99) == 5);
        assert(huff_code(97) == 3 && huff_code(99) == 4);
        assert(code_end(97) <= code_start(99)) by (nonlinear_arith)
            requires
                huff_bits(97) == 5,
                huff_bits(99) == 5,
                huff_code(97) == 3,
                huff_code(99) == 4,
                pow2(27) == 134217728,
                pow2(27) == 134217728,
        ;
    } else if j == 4 {
        assert(code_order(4) == 99 && code_order(5) == 101);
        assert(huff_bits(99) == 5 && huff_bits(101) == 5);
        assert(huff_code(99) == 4 && huff_code(101) == 5);
        assert(code_end(99) <= code_start(101)) by (nonlinear_arith)
            requires
                huff_bits(99) == 5,
                huff_bits(101) == 5,
                huff_code(99) == 4,
                huff_code(101) == 5,
                pow2(27) == 134217728,
                pow2(27) == 134217728,
        ;
    } else if j == 5 {
        assert(code_order(5) == 101 && code_order(6) == 105);
        assert(huff_bits(101) == 5 && huff_bits(105) == 5);
        assert(huff_code(101) == 5 && huff_code(105) == 6);
        assert(code_end(101) <= code_start(105)) by (nonlinear_arith)
            requires
                huff_bits(101) == 5,
                huff_bits(105) == 5,
                huff_code(101) == 5,
                huff_code(105) == 6,
                pow2(27) == 134217728,
                pow2(27) == 134217728,
        ;
    } else if j == 6 {
        assert(code_order(6) == 105 && code_order(7) == 111);
        assert(huff_bits(105) == 5 && huff_bits(111) == 5);
        assert(huff_code(105) == 6 && huff_code(111) == 7);
        assert(code_end(105) <= code_start(111)) by (nonlinear_arith)
            requires
                huff_bits(105) == 5,
                huff_bits(111) == 5,
                huff_code(105) == 6,
                huff_code(111) == 7,
                pow2(27) == 134217728,
                pow2(27) == 134217728,
        ;
    } else if j == 7 {
        assert(code_order(7) == 111 && code_order(8) == 115);
        assert(huff_bits(111) == 5 && huff_bits(115) == 5);
        assert(huff_code(111) == 7 && huff_code(115) == 8);
        assert(code_end(111) <= code_start(115)) by (nonlinear_arith)
            requires
                huff_bits(111) == 5,
                huff_bits(115) == 5,
                huff_code(111) == 7,
                huff_code(115) == 8,
                pow2(27) == 134217728,
                pow2(27) == 134217728,
        ;
    } else if j == 8 {
        assert(code_order(8) == 115 && code_order(9) == 116);
        assert(huff_bits(115) == 5 && huff_bits(116) == 5);
        assert(huff_code(115) == 8 && huff_code(116) == 9);
        assert(code_end(115) <= code_start(116)) by (nonlinear_arith)
            requires
                huff_bits(115) == 5,
                huff_bits(116) == 5,
                huff_code(115) == 8,
                huff_code(116) == 9,
                pow2(27) == 134217728,
                pow2(27) == 134217728,
        ;
    } else if j == 9 {
        assert(code_order(9) == 116 && code_order(10) == 32);
        assert(huff_bits(116) == 5 && huff_bits(32) == 6);
        assert(huff_code(116) == 9 && huff_code(32) == 20);
        assert(code_end(116) <= code_start(32)) by (nonlinear_arith)
            requires
                huff_bits(116) == 5,
                huff_bits(32) == 6,
                huff_code(116) == 9,
                huff_code(32) == 20,
                pow2(27) == 134217728,
                pow2(26) == 67108864,
        ;
    } else if j == 10 {
        assert(code_order(10) == 32 && code_order(11) == 37);
        assert(huff_bits(32) == 6 && huff_bits(37) == 6);
        assert(huff_code(32) == 20 && huff_code(37) == 21);
        assert(code_end(32) <= code_start(37)) by (nonlinear_arith)
            requires
                huff_bits(32) == 6,
                huff_bits(37) == 6,
                huff_code(32) == 20,
                huff_code(37) == 21,
                pow2(26) == 67108864,
                pow2(26) == 67108864,
        ;
    } else if j == 11 {
        assert(code_order(11) == 37 && code_order(12) == 45);
        assert(huff_bits(37) == 6 && huff_bits(45) == 6);
        assert(huff_code(37) == 21 && huff_code(45) == 22);
        assert(code_end(37) <= code_start(45)) by (nonlinear_arith)
            requires
                huff_bits(37) == 6,
                huff_bits(45) == 6,
                huff_code(37) == 21,
                huff_code(45) == 22,
                pow2(26) == 67108864,
                pow2(26) == 67108864,
        ;
    } else if j == 12 {
        assert(code_order(12) == 45 && code_order(13) == 46);
        assert(huff_bits(45) == 6 && huff_bits(46) == 6);
        assert(huff_code(45) == 22 && huff_code(46) == 23);
        assert(code_end(45) <= code_start(46)) by (nonlinear_arith)
            requires
                huff_bits(45) == 6,
                huff_bits(46) == 6,
                huff_code(45) == 22,
                huff_code(46) == 23,
                pow2(26) == 67108864,
                pow2(26) == 67108864,
        ;
    } else if j == 13 {
        assert(code_order(13) == 46 && code_order(14) == 47);
        assert(huff_bits(46) == 6 && huff_bits(47) == 6);
        assert(huff_code(46) == 23 && huff_code(47) == 24);
        assert(code_end(46) <= code_start(47)) by (nonlinear_arith)
            requires
                huff_bits(46) == 6,
                huff_bits(47) == 6,
                huff_code(46) == 23,
                huff_code(47) == 24,
                pow2(26) == 67108864,
                pow2(26) == 67108864,
        ;
    } else if j == 14 {
        assert(code_order(14) == 47 && code_order(15) == 51);
        assert(huff_bits(47) == 6 && huff_bits(51) == 6);
        assert(huff_code(47) == 24 && huff_code(51) == 25);
        assert(code_end(47) <= code_start(51)) by (nonlinear_arith)
            requires
                huff_bits(47) == 6,
                huff_bits(51) == 6,
                huff_code(47) == 24,
                huff_code(51) == 25,
                pow2(26) == 67108864,
                pow2(26) == 67108864,
        ;
    } else if j == 15 {
        assert(code_order(15) == 51 && code_order(16) == 52);
        assert(huff_bits(51) == 6 && huff_bits(52) == 6);
        assert(huff_code(51) == 25 && huff_code(52) == 26);
        assert(code_end(51) <= code_start(52)) by (nonlinear_arith)
            requires
                huff_bits(51) == 6,
                huff_bits(52) == 6,
                huff_code(51) == 25,
                huff_code(52) == 26,
                pow2(26) == 67108864,
                pow2(26) == 67108864,
        ;
    } else {
    }
}

proof fn lemma_adjacent_1(j: int)
    requires
        16 <= j < 32,
    ensures
        code_end(code_order(j)) <= code_start(code_order(j + 1)),
{
    lemma2_to64();
    if j == 16 {
        assert(code_order(16) == 52 && code_order(17) == 53);
        assert(huff_bits(52) == 6 && huff_bits(53) == 6);
        assert(huff_code(52) == 26 && huff_code(53) == 27);
        assert(code_end(52) <= code_start(53)) by (nonlinear_arith)
            requires
                huff_bits(52) == 6,
                huff_bits(53) == 6,
                huff_code(52) == 26,
                huff_code(53) == 27,
                pow2(26) == 67108864,
                pow2(26) == 67108864,
        ;
    } else if j == 17 {
        assert(code_order(17) == 53 && code_order(18) == 54);
        assert(huff_bits(53) == 6 && huff_bits(54) == 6);
        assert(huff_code(53) == 27 && huff_code(54) == 28);
        assert(code_end(53) <= code_start(54)) by (nonlinear_arith)
            requires
                huff_bits(53) == 6,
                huff_bits(54) == 6,
                huff_code(53) == 27,
                huff_code(54) == 28,
                pow2(26) == 67108864,
                pow2(26) == 67108864,
        ;
    } else if j == 18 {
        assert(code_order(18) == 54 && code_order(19) == 55);
        assert(huff_bits(54) == 6 && huff_bits(55) == 6);
        assert(huff_code(54) == 28 && huff_code(55) == 29);
        assert(code_end(54) <= code_start(55)) by (nonlinear_arith)
            requires
                huff_bits(54) == 6,
                huff_bits(55) == 6,
                huff_code(54) == 28,
                huff_code(55) == 29,
                pow2(26) == 67108864,
                pow2(26) == 67108864,
        ;
    } else if j == 19 {
        assert(code_order(19) == 55 && code_order(20) == 56);
        assert(huff_bits(55) == 6 && huff_bits(56) == 6);
        assert(huff_code(55) == 29 && huff_code(56) == 30);
        assert(code_end(55) <= code_start(56)) by (nonlinear_arith)
            requires
                huff_bits(55) == 6,
                huff_bits(56) == 6,
                huff_code(55) == 29,
                huff_code(56) == 30,
                pow2(26) == 67108864,
                pow2(26) == 67108864,
        ;
    } else if j == 20 {
        assert(code_order(20) == 56 && code_order(21) == 57);
        assert(huff_bits(56) == 6 && huff_bits(57) == 6);
        assert(huff_code(56) == 30 && huff_code(57) == 31);
        assert(code_end(56) <= code_start(57)) by (nonlinear_arith)
            requires
                huff_bits(56) == 6,
                huff_bits(57) == 6,
                huff_code(56) == 30,
                huff_code(57) == 31,
                pow2(26) == 67108864,
                pow2(26) == 67108864,
        ;
    } else if j == 21 {
        assert(code_order(21) == 57 && code_order(22) == 61);
        assert(huff_bits(57) == 6 && huff_bits(61) == 6);
        assert(huff_code(57) == 31 && huff_code(61) == 32);
        assert(code_end(57) <= code_start(61)) by (nonlinear_arith)
            requires
                huff_bits(57) == 6,
                huff_bits(61) == 6,
                huff_code(57) == 31,
                huff_code(61) == 32,
                pow2(26) == 67108864,
                pow2(26) == 67108864,
        ;
    } else if j == 22 {
        assert(code_order(22) == 61 && code_order(23) == 65);
        assert(huff_bits(61) == 6 && huff_bits(65) == 6);
        assert(huff_code(61) == 32 && huff_code(65) == 33);
        assert(code_end(61) <= code_start(65)) by (nonlinear_arith)
            requires
                huff_bits(61) == 6,
                huff_bits(65) == 6,
                huff_code(61) == 32,
                huff_code(65) == 33,
                pow2(26) == 67108864,
                pow2(26) == 67108864,
        ;
    } else if j == 23 {
        assert(code_order(23) == 65 && code_order(24) == 95);
        assert(huff_bits(65) == 6 && huff_bits(95) == 6);
        assert(huff_code(65) == 33 && huff_code(95) == 34);
        assert(code_end(65) <= code_start(95)) by (nonlinear_arith)
            requires
                huff_bits(65) == 6,
                huff_bits(95) == 6,
                huff_code(65) == 33,
                huff_code(95) == 34,
                pow2(26) == 67108864,
                pow2(26) == 67108864,
        ;
    } else if j == 24 {
        assert(code_order(24) == 95 && code_order(25) == 98);
        assert(huff_bits(95) == 6 && huff_bits(98) == 6);
        assert(huff_code(95) == 34 && huff_code(98) == 35);
        assert(code_end(95) <= code_start(98)) by (nonlinear_arith)
            requires
                huff_bits(95) == 6,
                huff_bits(98) == 6,
                huff_code(95) == 34,
                huff_code(98) == 35,
                pow2(26) == 67108864,
                pow2(26) == 67108864,
        ;
    } else if j == 25 {
        assert(code_order(25) == 98 && code_order(26) == 100);
        assert(huff_bits(98) == 6 && huff_bits(100) == 6);
        assert(huff_code(98) == 35 && huff_code(100) == 36);
        assert(code_end(98) <= code_start(100)) by (nonlinear_arith)
            requires
                huff_bits(98) == 6,
                huff_bits(100) == 6,
                huff_code(98) == 35,
                huff_code(100) == 36,
                pow2(26) == 67108864,
                pow2(26) == 67108864,
        ;
    } else if j == 26 {
        assert(code_order(26) == 100 && code_order(27) == 102);
        assert(huff_bits(100) == 6 && huff_bits(102) == 6);
        assert(huff_code(100) == 36 && huff_code(102) == 37);
        assert(code_end(100) <= code_start(102)) by (nonlinear_arith)
            requires
                huff_bits(100) == 6,
                huff_bits(102) == 6,
                huff_code(100) == 36,
                huff_code(102) == 37,
                pow2(26) == 67108864,
                pow2(26) == 67108864,
        ;
    } else if j == 27 {
        assert(code_order(27) == 102 && code_order(28) == 103);
        assert(huff_bits(102) == 6 && huff_bits(103) == 6);
        assert(huff_code(102) == 37 && huff_code(103) == 38);
        assert(code_end(102) <= code_start(103)) by (nonlinear_arith)
            requires
                huff_bits(102) == 6,
                huff_bits(103) == 6,
                huff_code(102) == 37,
                huff_code(103) == 38,
                pow2(26) == 67108864,
                pow2(26) == 67108864,
        ;
    } else if j == 28 {
        assert(code_order(28) == 103 && code_order(29) == 104);
        assert(huff_bits(103) == 6 && huff_bits(104) == 6);
        assert(huff_code(103) == 38 && huff_code(104) == 39);
        assert(code_end(103) <= code_start(104)) by (nonlinear_arith)
            requires
                huff_bits(103) == 6,
                huff_bits(104) == 6,
                huff_code(103) == 38,
                huff_code(104) == 39,
                pow2(26) == 67108864,
                pow2(26) == 67108864,
        ;
    } else if j == 29 {
        assert(code_order(29) == 104 && code_order(30) == 108);
        assert(huff_bits(104) == 6 && huff_bits(108) == 6);
        assert(huff_code(104) == 39 && huff_code(108) == 40);
        assert(code_end(104) <= code_start(108)) by (nonlinear_arith)
            requires
                huff_bits(104) == 6,
                huff_bits(108) == 6,
                huff_code(104) == 39,
                huff_code(108) == 40,
                pow2(26) == 67108864,
                pow2(26) == 67108864,
        ;
    } else if j == 30 {
        assert(code_order(30) == 108 && code_order(31) == 109);
        assert(huff_bits(108) == 6 && huff_bits(109) == 6);
        assert(huff_code(108) == 40 && huff_code(109) == 41);
        assert(code_end(108) <= code_start(109)) by (nonlinear_arith)
            requires
                huff_bits(108) == 6,
                huff_bits(109) == 6,
                huff_code(108) == 40,
                huff_code(109) == 41,
                pow2(26) == 67108864,
                pow2(26) == 67108864,
        ;
    } else if j == 31 {
        assert(code_order(31) == 109 && code_order(32) == 110);
        assert(huff_bits(109) == 6 && huff_bits(110) == 6);
        assert(huff_code(109) == 41 && huff_code(110) == 42);
        assert(code_end(109) <= code_start(110)) by (nonlinear_arith)
            requires
                huff_bits(109) == 6,
                huff_bits(110) == 6,
                huff_code(109) == 41,
                huff_code(110) == 42,
                pow2(26) == 67108864,
                pow2(26) == 67108864,
        ;
    } else {
    }
}

proof fn lemma_adjacent_2(j: int)
    requires
        32 <= j < 48,
    ensures
        code_end(code_order(j)) <= code_start(code_order(j + 1)),
{
    lemma2_to64();
    if j == 32 {
        assert(code_order(32) == 110 && code_order(33) == 112);
        assert(huff_bits(110) == 6 && huff_bits(112) == 6);
        assert(huff_code(110) == 42 && huff_code(112) == 43);
        assert(code_end(110) <= code_start(112)) by (nonlinear_arith)
            requires
                huff_bits(110) == 6,
                huff_bits(112) == 6,
                huff_code(110) == 42,
                huff_code(112) == 43,
                pow2(26) == 67108864,
                pow2(26) == 67108864,
        ;
    } else if j == 33 {
        assert(code_order(33) == 112 && code_order(34) == 114);
        assert(huff_bits(112) == 6 && huff_bits(114) == 6);
        assert(huff_code(112) == 43 && huff_code(114) == 44);
        assert(code_end(112) <= code_start(114)) by (nonlinear_arith)
            requires
                huff_bits(112) == 6,
                huff_bits(114) == 6,
                huff_code(112) == 43,
                huff_code(114) == 44,
                pow2(26) == 67108864,
                pow2(26) == 67108864,
        ;
    } else if j == 34 {
        assert(code_order(34) == 114 && code_order(35) == 117);
        assert(huff_bits(114) == 6 && huff_bits(117) == 6);
        assert(huff_code(114) == 44 && huff_code(117) == 45);
        assert(code_end(114) <= code_start(117)) by (nonlinear_arith)
            requires
                huff_bits(114) == 6,
                huff_bits(117) == 6,
                huff_code(114) == 44,
                huff_code(117) == 45,
                pow2(26) == 67108864,
                pow2(26) == 67108864,
        ;
    } else if j == 35 {
        assert(code_order(35) == 117 && code_order(36) == 58);
        assert(huff_bits(117) == 6 && huff_bits(58) == 7);
        assert(huff_code(117) == 45 && huff_code(58) == 92);
        assert(code_end(117) <= code_start(58)) by (nonlinear_arith)
            requires
                huff_bits(117) == 6,
                huff_bits(58) == 7,
                huff_code(117) == 45,
                huff_code(58) == 92,
                pow2(26) == 67108864,
                pow2(25) == 33554432,
        ;
    } else if j == 36 {
        assert(code_order(36) == 58 && code_order(37) == 66);
        assert(huff_bits(58) == 7 && huff_bits(66) == 7);
        assert(huff_code(58) == 92 && huff_code(66) == 93);
        assert(code_end(58) <= code_start(66)) by (nonlinear_arith)
            requires
                huff_bits(58) == 7,
                huff_bits(66) == 7,
                huff_code(58) == 92,
                huff_code(66) == 93,
                pow2(25) == 33554432,
                pow2(25) == 33554432,
        ;
    } else if j == 37 {
        assert(code_order(37) == 66 && code_order(38) == 67);
        assert(huff_bits(66) == 7 && huff_bits(67) == 7);
        assert(huff_code(66) == 93 && huff_code(67) == 94);
        assert(code_end(66) <= code_start(67)) by (nonlinear_arith)
            requires
                huff_bits(66) == 7,
                huff_bits(67) == 7,
                huff_code(66) == 93,
                huff_code(67) == 94,
                pow2(25) == 33554432,
                pow2(25) == 33554432,
        ;
    } else if j == 38 {
        assert(code_order(38) == 67 && code_order(39) == 68);
        assert(huff_bits(67) == 7 && huff_bits(68) == 7);
        assert(huff_code(67) == 94 && huff_code(68) == 95);
        assert(code_end(67) <= code_start(68)) by (nonlinear_arith)
            requires
                huff_bits(67) == 7,
                huff_bits(68) == 7,
                huff_code(67) == 94,
                huff_code(68) == 95,
                pow2(25) == 33554432,
                pow2(25) == 33554432,
        ;
    } else if j == 39 {
        assert(code_order(39) == 68 && code_order(40) == 69);
        assert(huff_bits(68) == 7 && huff_bits(69) == 7);
        assert(huff_code(68) == 95 && huff_code(69) == 96);
        assert(code_end(68) <= code_start(69)) by (nonlinear_arith)
            requires
                huff_bits(68) == 7,
                huff_bits(69) == 7,
                huff_code(68) == 95,
                huff_code(69) == 96,
                pow2(25) == 33554432,
                pow2(25) == 33554432,
        ;
    } else if j == 40 {
        assert(code_order(40) == 69 && code_order(41) == 70);
        assert(huff_bits(69) == 7 && huff_bits(70) == 7);
        assert(huff_code(69) == 96 && huff_code(70) == 97);
        assert(code_end(69) <= code_start(70)) by (nonlinear_arith)
            requires
                huff_bits(69) == 7,
                huff_bits(70) == 7,
                huff_code(69) == 96,
                huff_code(70) == 97,
                pow2(25) == 33554432,
                pow2(25) == 33554432,
        ;
    } else if j == 41 {
        assert(code_order(41) == 70 && code_order(42) == 71);
        assert(huff_bits(70) == 7 && huff_bits(71) == 7);
        assert(huff_code(70) == 97 && huff_code(71) == 98);
        assert(code_end(70) <= code_start(71)) by (nonlinear_arith)
            requires
                huff_bits(70) == 7,
                huff_bits(71) == 7,
                huff_code(70) == 97,
                huff_code(71) == 98,
                pow2(25) == 33554432,
                pow2(25) == 33554432,
        ;
    } else if j == 42 {
        assert(code_order(42) == 71 && code_order(43) == 72);
        assert(huff_bits(71) == 7 && huff_bits(72) == 7);
        assert(huff_code(71) == 98 && huff_code(72) == 99);
        assert(code_end(71) <= code_start(72)) by (nonlinear_arith)
            requires
                huff_bits(71) == 7,
                huff_bits(72) == 7,
                huff_code(71) == 98,
                huff_code(72) == 99,
                pow2(25) == 33554432,
                pow2(25) == 33554432,
        ;
    } else if j == 43 {
        assert(code_order(43) == 72 && code_order(44) == 73);
        assert(huff_bits(72) == 7 && huff_bits(73) == 7);
        assert(huff_code(72) == 99 && huff_code(73) == 100);
        assert(code_end(72) <= code_start(73)) by (nonlinear_arith)
            requires
                huff_bits(72) == 7,
                huff_bits(73) == 7,
                huff_code(72) == 99,
                huff_code(73) == 100,
                pow2(25) == 33554432,
                pow2(25) == 33554432,
        ;
    } else if j == 44 {
        assert(code_order(44) == 73 && code_order(45) == 74);
        assert(huff_bits(73) == 7 && huff_bits(74) == 7);
        assert(huff_code(73) == 100 && huff_code(74) == 101);
        assert(code_end(73) <= code_start(74)) by (nonlinear_arith)
            requires
                huff_bits(73) == 7,
                huff_bits(74) == 7,
                huff_code(73) == 100,
                huff_code(74) == 101,
                pow2(25) == 33554432,
                pow2(25) == 33554432,
        ;
    } else if j == 45 {
        assert(code_order(45) == 74 && code_order(46) == 75);
        assert(huff_bits(74) == 7 && huff_bits(75) == 7);
        assert(huff_code(74) == 101 && huff_code(75) == 102);
        assert(code_end(74) <= code_start(75)) by (nonlinear_arith)
            requires
                huff_bits(74) == 7,
                huff_bits(75) == 7,
                huff_code(74) == 101,
                huff_code(75) == 102,
                pow2(25) == 33554432,
                pow2(25) == 33554432,
        ;
    } else if j == 46 {
        assert(code_order(46) == 75 && code_order(47) == 76);
        assert(huff_bits(75) == 7 && huff_bits(76) == 7);
        assert(huff_code(75) == 102 && huff_code(76) == 103);
        assert(code_end(75) <= code_start(76)) by (nonlinear_arith)
            requires
                huff_bits(75) == 7,
                huff_bits(76) == 7,
                huff_code(75) == 102,
                huff_code(76) == 103,
                pow2(25) == 33554432,
                pow2(25) == 33554432,
        ;
    } else if j == 47 {
        assert(code_order(47) == 76 && code_order(48) == 77);
        assert(huff_bits(76) == 7 && huff_bits(77) == 7);
        assert(huff_code(76) == 103 && huff_code(77) == 104);
        assert(code_end(76) <= code_start(77)) by (nonlinear_arith)
            requires
                huff_bits(76) == 7,
                huff_bits(77) == 7,
                huff_code(76) == 103,
                huff_code(77) == 104,
                pow2(25) == 33554432,
                pow2(25) == 33554432,
        ;
    } else {
    }
}

proof fn lemma_adjacent_3(j: int)
    requires
        48 <= j < 64,
    ensures
        code_end(code_order(j)) <= code_start(code_order(j + 1)),
{
    lemma2_to64();
    if j == 48 {
        assert(code_order(48) == 77 && code_order(49) == 78);
        assert(huff_bits(77) == 7 && huff_bits(78) == 7);
        assert(huff_code(77) == 104 && huff_code(78) == 105);
        assert(code_end(77) <= code_start(78)) by (nonlinear_arith)
            requires
                huff_bits(77) == 7,
                huff_bits(78) == 7,
                huff_code(77) == 104,
                huff_code(78) == 105,
                pow2(25) == 33554432,
                pow2(25) == 33554432,
        ;
    } else if j == 49 {
        assert(code_order(49) == 78 && code_order(50) == 79);
        assert(huff_bits(78) == 7 && huff_bits(79) == 7);
        assert(huff_code(78) == 105 && huff_code(79) == 106);
        assert(code_end(78) <= code_start(79)) by (nonlinear_arith)
            requires
                huff_bits(78) == 7,
                huff_bits(79) == 7,
                huff_code(78) == 105,
                huff_code(79) == 106,
                pow2(25) == 33554432,
                pow2(25) == 33554432,
        ;
    } else if j == 50 {
        assert(code_order(50) == 79 && code_order(51) == 80);
        assert(huff_bits(79) == 7 && huff_bits(80) == 7);
        assert(huff_code(79) == 106 && huff_code(80) == 107);
        assert(code_end(79) <= code_start(80)) by (nonlinear_arith)
            requires
                huff_bits(79) == 7,
                huff_bits(80) == 7,
                huff_code(79) == 106,
                huff_code(80) == 107,
                pow2(25) == 33554432,
                pow2(25) == 33554432,
        ;
    } else if j == 51 {
        assert(code_order(51) == 80 && code_order(52) == 81);
        assert(huff_bits(80) == 7 && huff_bits(81) == 7);
        assert(huff_code(80) == 107 && huff_code(81) == 108);
        assert(code_end(80) <= code_start(81)) by (nonlinear_arith)
            requires
                huff_bits(80) == 7,
                huff_bits(81) == 7,
                huff_code(80) == 107,
                huff_code(81) == 108,
                pow2(25) == 33554432,
                pow2(25) == 33554432,
        ;
    } else if j == 52 {
        assert(code_order(52) == 81 && code_order(53) == 82);
        assert(huff_bits(81) == 7 && huff_bits(82) == 7);
        assert(huff_code(81) == 108 && huff_code(82) == 109);
        assert(code_end(81) <= code_start(82)) by (nonlinear_arith)
            requires
                huff_bits(81) == 7,
                huff_bits(82) == 7,
                huff_code(81) == 108,
                huff_code(82) == 109,
                pow2(25) == 33554432,
                pow2(25) == 33554432,
        ;
    } else if j == 53 {
        assert(code_order(53) == 82 && code_order(54) == 83);
        assert(huff_bits(82) == 7 && huff_bits(83) == 7);
        assert(huff_code(82) == 109 && huff_code(83) == 110);
        assert(code_end(82) <= code_start(83)) by (nonlinear_arith)
            requires
                huff_bits(82) == 7,
                huff_bits(83) == 7,
                huff_code(82) == 109,
                huff_code(83) == 110,
                pow2(25) == 33554432,
                pow2(25) == 33554432,
        ;
    } else if j == 54 {
        assert(code_order(54) == 83 && code_order(55) == 84);
        assert(huff_bits(83) == 7 && huff_bits(84) == 7);
        assert(huff_code(83) == 110 && huff_code(84) == 111);
        assert(code_end(83) <= code_start(84)) by (nonlinear_arith)
            requires
                huff_bits(83) == 7,
                huff_bits(84) == 7,
                huff_code(83) == 110,
                huff_code(84) == 111,
                pow2(25) == 33554432,
                pow2(25) == 33554432,
        ;
    } else if j == 55 {
        assert(code_order(55) == 84 && code_order(56) == 85);
        assert(huff_bits(84) == 7 && huff_bits(85) == 7);
        assert(huff_code(84) == 111 && huff_code(85) == 112);
        assert(code_end(84) <= code_start(85)) by (nonlinear_arith)
            requires
                huff_bits(84) == 7,
                huff_bits(85) == 7,
                huff_code(84) == 111,
                huff_code(85) == 112,
                pow2(25) == 33554432,
                pow2(25) == 33554432,
        ;
    } else if j == 56 {
        assert(code_order(56) == 85 && code_order(57) == 86);
        assert(huff_bits(85) == 7 && huff_bits(86) == 7);
        assert(huff_code(85) == 112 && huff_code(86) == 113);
        assert(code_end(85) <= code_start(86)) by (nonlinear_arith)
            requires
                huff_bits(85) == 7,
                huff_bits(86) == 7,
                huff_code(85) == 112,
                huff_code(86) == 113,
                pow2(25) == 33554432,
                pow2(25) == 33554432,
        ;
    } else if j == 57 {
        assert(code_order(57) == 86 && code_order(58) == 87);
        assert(huff_bits(86) == 7 && huff_bits(87) == 7);
        assert(huff_code(86) == 113 && huff_code(87) == 114);
        assert(code_end(86) <= code_start(87)) by (nonlinear_arith)
            requires
                huff_bits(86) == 7,
                huff_bits(87) == 7,
                huff_code(86) == 113,
                huff_code(87) == 114,
                pow2(25) == 33554432,
                pow2(25) == 33554432,
        ;
    } else if j == 58 {
        assert(code_order(58) == 87 && code_order(59) == 89);
        assert(huff_bits(87) == 7 && huff_bits(89) == 7);
        assert(huff_code(87) == 114 && huff_code(89) == 115);
        assert(code_end(87) <= code_start(89)) by (nonlinear_arith)
            requires
                huff_bits(87) == 7,
                huff_bits(89) == 7,
                huff_code(87) == 114,
                huff_code(89) == 115,
                pow2(25) == 33554432,
                pow2(25) == 33554432,
        ;
    } else if j == 59 {
        assert(code_order(59) == 89 && code_order(60) == 106);
        assert(huff_bits(89) == 7 && huff_bits(106) == 7);
        assert(huff_code(89) == 115 && huff_code(106) == 116);
        assert(code_end(89) <= code_start(106)) by (nonlinear_arith)
            requires
                huff_bits(89) == 7,
                huff_bits(106) == 7,
                huff_code(89) == 115,
                huff_code(106) == 116,
                pow2(25) == 33554432,
                pow2(25) == 33554432,
        ;
    } else if j == 60 {
        assert(code_order(60) == 106 && code_order(61) == 107);
        assert(huff_bits(106) == 7 && huff_bits(107) == 7);
        assert(huff_code(106) == 116 && huff_code(107) == 117);
        assert(code_end(106) <= code_start(107)) by (nonlinear_arith)
            requires
                huff_bits(106) == 7,
                huff_bits(107) == 7,
                huff_code(106) == 116,
                huff_code(107) == 117,
                pow2(25) == 33554432,
                pow2(25) == 33554432,
        ;
    } else if j == 61 {
        assert(code_order(61) == 107 && code_order(62) == 113);
        assert(huff_bits(107) == 7 && huff_bits(113) == 7);
        assert(huff_code(107) == 117 && huff_code(113) == 118);
        assert(code_end(107) <= code_start(113)) by (nonlinear_arith)
            requires
                huff_bits(107) == 7,
                huff_bits(113) == 7,
                huff_code(107) == 117,
                huff_code(113) == 118,
                pow2(25) == 33554432,
                pow2(25) == 33554432,
        ;
    } else if j == 62 {
        assert(code_order(62) == 113 && code_order(63) == 118);
        assert(huff_bits(113) == 7 && huff_bits(118) == 7);
        assert(huff_code(113) == 118 && huff_code(118) == 119);
        assert(code_end(113) <= code_start(118)) by (nonlinear_arith)
            requires
                huff_bits(113) == 7,
                huff_bits(118) == 7,
                huff_code(113) == 118,
                huff_code(118) == 119,
                pow2(25) == 33554432,
                pow2(25) == 33554432,
        ;
    } else if j == 63 {
        assert(code_order(63) == 118 && code_order(64) == 119);
        assert(huff_bits(118) == 7 && huff_bits(119) == 7);
        assert(huff_code(118) == 119 && huff_code(119) == 120);
        assert(code_end(118) <= code_start(119)) by (nonlinear_arith)
            requires
                huff_bits(118) == 7,
                huff_bits(119) == 7,
                huff_code(118) == 119,
                huff_code(119) == 120,
                pow2(25) == 33554432,
                pow2(25) == 33554432,
        ;
    } else {
    }
}

proof fn lemma_adjacent_4(j: int)
    requires
        64 <= j < 80,
    ensures
        code_end(code_order(j)) <= code_start(code_order(j + 1)),
{
    lemma2_to64();
    if j == 64 {
        assert(code_order(64) == 119 && code_order(65) == 120);
        assert(huff_bits(119) == 7 && huff_bits(120) == 7);
        assert(huff_code(119) == 120 && huff_code(120) == 121);
        assert(code_end(119) <= code_start(120)) by (nonlinear_arith)
            requires
                huff_bits(119) == 7,
                huff_bits(120) == 7,
                huff_code(119) == 120,
                huff_code(120) == 121,
                pow2(25) == 33554432,
                pow2(25) == 33554432,
        ;
    } else if j == 65 {
        assert(code_order(65) == 120 && code_order(66) == 121);
        assert(huff_bits(120) == 7 && huff_bits(121) == 7);
        assert(huff_code(120) == 121 && huff_code(121) == 122);
        assert(code_end(120) <= code_start(121)) by (nonlinear_arith)
            requires
                huff_bits(120) == 7,
                huff_bits(121) == 7,
                huff_code(120) == 121,
                huff_code(121) == 122,
                pow2(25) == 33554432,
                pow2(25) == 33554432,
        ;
    } else if j == 66 {
        assert(code_order(66) == 121 && code_order(67) == 122);
        assert(huff_bits(121) == 7 && huff_bits(122) == 7);
        assert(huff_code(121) == 122 && huff_code(122) == 123);
        assert(code_end(121) <= code_start(122)) by (nonlinear_arith)
            requires
                huff_bits(121) == 7,
                huff_bits(122) == 7,
                huff_code(121) == 122,
                huff_code(122) == 123,
                pow2(25) == 33554432,
                pow2(25) == 33554432,
        ;
    } else if j == 67 {
        assert(code_order(67) == 122 && code_order(68) == 38);
        assert(huff_bits(122) == 7 && huff_bits(38) == 8);
        assert(huff_code(122) == 123 && huff_code(38) == 248);
        assert(code_end(122) <= code_start(38)) by (nonlinear_arith)
            requires
                huff_bits(122) == 7,
                huff_bits(38) == 8,
                huff_code(122) == 123,
                huff_code(38) == 248,
                pow2(25) == 33554432,
                pow2(24) == 16777216,
        ;
    } else if j == 68 {
        assert(code_order(68) == 38 && code_order(69) == 42);
        assert(huff_bits(38) == 8 && huff_bits(42) == 8);
        assert(huff_code(38) == 248 && huff_code(42) == 249);
        assert(code_end(38) <= code_start(42)) by (nonlinear_arith)
            requires
                huff_bits(38) == 8,
                huff_bits(42) == 8,
                huff_code(38) == 248,
                huff_code(42) == 249,
                pow2(24) == 16777216,
                pow2(24) == 16777216,
        ;
    } else if j == 69 {
        assert(code_order(69) == 42 && code_order(70) == 44);
        assert(huff_bits(42) == 8 && huff_bits(44) == 8);
        assert(huff_code(42) == 249 && huff_code(44) == 250);
        assert(code_end(42) <= code_start(44)) by (nonlinear_arith)
            requires
                huff_bits(42) == 8,
                huff_bits(44) == 8,
                huff_code(42) == 249,
                huff_code(44) == 250,
                pow2(24) == 16777216,
                pow2(24) == 16777216,
        ;
    } else if j == 70 {
        assert(code_order(70) == 44 && code_order(71) == 59);
        assert(huff_bits(44) == 8 && huff_bits(59) == 8);
        assert(huff_code(44) == 250 && huff_code(59) == 251);
        assert(code_end(44) <= code_start(59)) by (nonlinear_arith)
            requires
                huff_bits(44) == 8,
                huff_bits(59) == 8,
                huff_code(44) == 250,
                huff_code(59) == 251,
                pow2(24) == 16777216,
                pow2(24) == 16777216,
        ;
    } else if j == 71 {
        assert(code_order(71) == 59 && code_order(72) == 88);
        assert(huff_bits(59) == 8 && huff_bits(88) == 8);
        assert(huff_code(59) == 251 && huff_code(88) == 252);
        assert(code_end(59) <= code_start(88)) by (nonlinear_arith)
            requires
                huff_bits(59) == 8,
                huff_bits(88) == 8,
                huff_code(59) == 251,
                huff_code(88) == 252,
                pow2(24) == 16777216,
                pow2(24) == 16777216,
        ;
    } else if j == 72 {
        assert(code_order(72) == 88 && code_order(73) == 90);
        assert(huff_bits(88) == 8 && huff_bits(90) == 8);
        assert(huff_code(88) == 252 && huff_code(90) == 253);
        assert(code_end(88) <= code_start(90)) by (nonlinear_arith)
            requires
                huff_bits(88) == 8,
                huff_bits(90) == 8,
                huff_code(88) == 252,
                huff_code(90) == 253,
                pow2(24) == 16777216,
                pow2(24) == 16777216,
        ;
    } else if j == 73 {
        assert(code_order(73) == 90 && code_order(74) == 33);
        assert(huff_bits(90) == 8 && huff_bits(33) == 10);
        assert(huff_code(90) == 253 && huff_code(33) == 1016);
        assert(code_end(90) <= code_start(33)) by (nonlinear_arith)
            requires
                huff_bits(90) == 8,
                huff_bits(33) == 10,
                huff_code(90) == 253,
                huff_code(33) == 1016,
                pow2(24) == 16777216,
                pow2(22) == 4194304,
        ;
    } else if j == 74 {
        assert(code_order(74) == 33 && code_order(75) == 34);
        assert(huff_bits(33) == 10 && huff_bits(34) == 10);
        assert(huff_code(33) == 1016 && huff_code(34) == 1017);
        assert(code_end(33) <= code_start(34)) by (nonlinear_arith)
            requires
                huff_bits(33) == 10,
                huff_bits(34) == 10,
                huff_code(33) == 1016,
                huff_code(34) == 1017,
                pow2(22) == 4194304,
                pow2(22) == 4194304,
        ;
    } else if j == 75 {
        assert(code_order(75) == 34 && code_order(76) == 40);
        assert(huff_bits(34) == 10 && huff_bits(40) == 10);
        assert(huff_code(34) == 1017 && huff_code(40) == 1018);
        assert(code_end(34) <= code_start(40)) by (nonlinear_arith)
            requires
                huff_bits(34) == 10,
                huff_bits(40) == 10,
                huff_code(34) == 1017,
                huff_code(40) == 1018,
                pow2(22) == 4194304,
                pow2(22) == 4194304,
        ;
    } else if j == 76 {
        assert(code_order(76) == 40 && code_order(77) == 41);
        assert(huff_bits(40) == 10 && huff_bits(41) == 10);
        assert(huff_code(40) == 1018 && huff_code(41) == 1019);
        assert(code_end(40) <= code_start(41)) by (nonlinear_arith)
            requires
                huff_bits(40) == 10,
                huff_bits(41) == 10,
                huff_code(40) == 1018,
                huff_code(41) == 1019,
                pow2(22) == 4194304,
                pow2(22) == 4194304,
        ;
    } else if j == 77 {
        assert(code_order(77) == 41 && code_order(78) == 63);
        assert(huff_bits(41) == 10 && huff_bits(63) == 10);
        assert(huff_code(41) == 1019 && huff_code(63) == 1020);
        assert(code_end(41) <= code_start(63)) by (nonlinear_arith)
            requires
                huff_bits(41) == 10,
                huff_bits(63) == 10,
                huff_code(41) == 1019,
                huff_code(63) == 1020,
                pow2(22) == 4194304,
                pow2(22) == 4194304,
        ;
    } else if j == 78 {
        assert(code_order(78) == 63 && code_order(79) == 39);
        assert(huff_bits(63) == 10 && huff_bits(39) == 11);
        assert(huff_code(63) == 1020 && huff_code(39) == 2042);
        assert(code_end(63) <= code_start(39)) by (nonlinear_arith)
            requires
                huff_bits(63) == 10,
                huff_bits(39) == 11,
                huff_code(63) == 1020,
                huff_code(39) == 2042,
                pow2(22) == 4194304,
                pow2(21) == 2097152,
        ;
    } else if j == 79 {
        assert(code_order(79) == 39 && code_order(80) == 43);
        assert(huff_bits(39) == 11 && huff_bits(43) == 11);
        assert(huff_code(39) == 2042 && huff_code(43) == 2043);
        assert(code_end(39) <= code_start(43)) by (nonlinear_arith)
            requires
                huff_bits(39) == 11,
                huff_bits(43) == 11,
                huff_code(39) == 2042,
                huff_code(43) == 2043,
                pow2(21) == 2097152,
                pow2(21) == 2097152,
        ;
    } else {
    }
}

proof fn lemma_adjacent_5(j: int)
    requires
        80 <= j < 96,
    ensures
        code_end(code_order(j)) <= code_start(code_order(j + 1)),
{
    lemma2_to64();
    if j == 80 {
        assert(code_order(80) == 43 && code_order(81) == 124);
        assert(huff_bits(43) == 11 && huff_bits(124) == 11);
        assert(huff_code(43) == 2043 && huff_code(124) == 2044);
        assert(code_end(43) <= code_start(124)) by (nonlinear_arith)
            requires
                huff_bits(43) == 11,
                huff_bits(124) == 11,
                huff_code(43) == 2043,
                huff_code(124) == 2044,
                pow2(21) == 2097152,
                pow2(21) == 2097152,
        ;
    } else if j == 81 {
        assert(code_order(81) == 124 && code_order(82) == 35);
        assert(huff_bits(124) == 11 && huff_bits(35) == 12);
        assert(huff_code(124) == 2044 && huff_code(35) == 4090);
        assert(code_end(124) <= code_start(35)) by (nonlinear_arith)
            requires
                huff_bits(124) == 11,
                huff_bits(35) == 12,
                huff_code(124) == 2044,
                huff_code(35) == 4090,
                pow2(21) == 2097152,
                pow2(20) == 1048576,
        ;
    } else if j == 82 {
        assert(code_order(82) == 35 && code_order(83) == 62);
        assert(huff_bits(35) == 12 && huff_bits(62) == 12);
        assert(huff_code(35) == 4090 && huff_code(62) == 4091);
        assert(code_end(35) <= code_start(62)) by (nonlinear_arith)
            requires
                huff_bits(35) == 12,
                huff_bits(62) == 12,
                huff_code(35) == 4090,
                huff_code(62) == 4091,
                pow2(20) == 1048576,
                pow2(20) == 1048576,
        ;
    } else if j == 83 {
        assert(code_order(83) == 62 && code_order(84) == 0);
        assert(huff_bits(62) == 12 && huff_bits(0) == 13);
        assert(huff_code(62) == 4091 && huff_code(0) == 8184);
        assert(code_end(62) <= code_start(0)) by (nonlinear_arith)
            requires
                huff_bits(62) == 12,
                huff_bits(0) == 13,
                huff_code(62) == 4091,
                huff_code(0) == 8184,
                pow2(20) == 1048576,
                pow2(19) == 524288,
        ;
    } else if j == 84 {
        assert(code_order(84) == 0 && code_order(85) == 36);
        assert(huff_bits(0) == 13 && huff_bits(36) == 13);
        assert(huff_code(0) == 8184 && huff_code(36) == 8185);
        assert(code_end(0) <= code_start(36)) by (nonlinear_arith)
            requires
                huff_bits(0) == 13,
                huff_bits(36) == 13,
                huff_code(0) == 8184,
                huff_code(36) == 8185,
                pow2(19) == 524288,
                pow2(19) == 524288,
        ;
    } else if j == 85 {
        assert(code_order(85) == 36 && code_order(86) == 64);
        assert(huff_bits(36) == 13 && huff_bits(64) == 13);
        assert(huff_code(36) == 8185 && huff_code(64) == 8186);
        assert(code_end(36) <= code_start(64)) by (nonlinear_arith)
            requires
                huff_bits(36) == 13,
                huff_bits(64) == 13,
                huff_code(36) == 8185,
                huff_code(64) == 8186,
                pow2(19) == 524288,
                pow2(19) == 524288,
        ;
    } else if j == 86 {
        assert(code_order(86) == 64 && code_order(87) == 91);
        assert(huff_bits(64) == 13 && huff_bits(91) == 13);
        assert(huff_code(64) == 8186 && huff_code(91) == 8187);
        assert(code_end(64) <= code_start(91)) by (nonlinear_arith)
            requires
                huff_bits(64) == 13,
                huff_bits(91) == 13,
                huff_code(64) == 8186,
                huff_code(91) == 8187,
                pow2(19) == 524288,
                pow2(19) == 524288,
        ;
    } else if j == 87 {
        assert(code_order(87) == 91 && code_order(88) == 93);
        assert(huff_bits(91) == 13 && huff_bits(93) == 13);
        assert(huff_code(91) == 8187 && huff_code(93) == 8188);
        assert(code_end(91) <= code_start(93)) by (nonlinear_arith)
            requires
                huff_bits(91) == 13,
                huff_bits(93) == 13,
                huff_code(91) == 8187,
                huff_code(93) == 8188,
                pow2(19) == 524288,
                pow2(19) == 524288,
        ;
    } else if j == 88 {
        assert(code_order(88) == 93 && code_order(89) == 126);
        assert(huff_bits(93) == 13 && huff_bits(126) == 13);
        assert(huff_code(93) == 8188 && huff_code(126) == 8189);
        assert(code_end(93) <= code_start(126)) by (nonlinear_arith)
            requires
                huff_bits(93) == 13,
                huff_bits(126) == 13,
                huff_code(93) == 8188,
                huff_code(126) == 8189,
                pow2(19) == 524288,
                pow2(19) == 524288,
        ;
    } else if j == 89 {
        assert(code_order(89) == 126 && code_order(90) == 94);
        assert(huff_bits(126) == 13 && huff_bits(94) == 14);
        assert(huff_code(126) == 8189 && huff_code(94) == 16380);
        assert(code_end(126) <= code_start(94)) by (nonlinear_arith)
            requires
                huff_bits(126) == 13,
                huff_bits(94) == 14,
                huff_code(126) == 8189,
                huff_code(94) == 16380,
                pow2(19) == 524288,
                pow2(18) == 262144,
        ;
    } else if j == 90 {
        assert(code_order(90) == 94 && code_order(91) == 125);
        assert(huff_bits(94) == 14 && huff_bits(125) == 14);
        assert(huff_code(94) == 16380 && huff_code(125) == 16381);
        assert(code_end(94) <= code_start(125)) by (nonlinear_arith)
            requires
                huff_bits(94) == 14,
                huff_bits(125) == 14,
                huff_code(94) == 16380,
                huff_code(125) == 16381,
                pow2(18) == 262144,
                pow2(18) == 262144,
        ;
    } else if j == 91 {
        assert(code_order(91) == 125 && code_order(92) == 60);
        assert(huff_bits(125) == 14 && huff_bits(60) == 15);
        assert(huff_code(125) == 16381 && huff_code(60) == 32764);
        assert(code_end(125) <= code_start(60)) by (nonlinear_arith)
            requires
                huff_bits(125) == 14,
                huff_bits(60) == 15,
                huff_code(125) == 16381,
                huff_code(60) == 32764,
                pow2(18) == 262144,
                pow2(17) == 131072,
        ;
    } else if j == 92 {
        assert(code_order(92) == 60 && code_order(93) == 96);
        assert(huff_bits(60) == 15 && huff_bits(96) == 15);
        assert(huff_code(60) == 32764 && huff_code(96) == 32765);
        assert(code_end(60) <= code_start(96)) by (nonlinear_arith)
            requires
                huff_bits(60) == 15,
                huff_bits(96) == 15,
                huff_code(60) == 32764,
                huff_code(96) == 32765,
                pow2(17) == 131072,
                pow2(17) == 131072,
        ;
    } else if j == 93 {
        assert(code_order(93) == 96 && code_order(94) == 123);
        assert(huff_bits(96) == 15 && huff_bits(123) == 15);
        assert(huff_code(96) == 32765 && huff_code(123) == 32766);
        assert(code_end(96) <= code_start(123)) by (nonlinear_arith)
            requires
                huff_bits(96) == 15,
                huff_bits(123) == 15,
                huff_code(96) == 32765,
                huff_code(123) == 32766,
                pow2(17) == 131072,
                pow2(17) == 131072,
        ;
    } else if j == 94 {
        assert(code_order(94) == 123 && code_order(95) == 92);
        assert(huff_bits(123) == 15 && huff_bits(92) == 19);
        assert(huff_code(123) == 32766 && huff_code(92) == 524272);
        assert(code_end(123) <= code_start(92)) by (nonlinear_arith)
            requires
                huff_bits(123) == 15,
                huff_bits(92) == 19,
                huff_code(123) == 32766,
                huff_code(92) == 524272,
                pow2(17) == 131072,
                pow2(13) == 8192,
        ;
    } else if j == 95 {
        assert(code_order(95) == 92 && code_order(96) == 195);
        assert(huff_bits(92) == 19 && huff_bits(195) == 19);
        assert(huff_code(92) == 524272 && huff_code(195) == 524273);
        assert(code_end(92) <= code_start(195)) by (nonlinear_arith)
            requires
                huff_bits(92) == 19,
                huff_bits(195) == 19,
                huff_code(92) == 524272,
                huff_code(195) == 524273,
                pow2(13) == 8192,
                pow2(13) == 8192,
        ;
    } else {
    }
}

proof fn lemma_adjacent_6(j: int)
    requires
        96 <= j < 112,
    ensures
        code_end(code_order(j)) <= code_start(code_order(j + 1)),
{
    lemma2_to64();
    if j == 96 {
        assert(code_order(96) == 195 && code_order(97) == 208);
        assert(huff_bits(195) == 19 && huff_bits(208) == 19);
        assert(huff_code(195) == 524273 && huff_code(208) == 524274);
        assert(code_end(195) <= code_start(208)) by (nonlinear_arith)
            requires
                huff_bits(195) == 19,
                huff_bits(208) == 19,
                huff_code(195) == 524273,
                huff_code(208) == 524274,
                pow2(13) == 8192,
                pow2(13) == 8192,
        ;
    } else if j == 97 {
        assert(code_order(97) == 208 && code_order(98) == 128);
        assert(huff_bits(208) == 19 && huff_bits(128) == 20);
        assert(huff_code(208) == 524274 && huff_code(128) == 1048550);
        assert(code_end(208) <= code_start(128)) by (nonlinear_arith)
            requires
                huff_bits(208) == 19,
                huff_bits(128) == 20,
                huff_code(208) == 524274,
                huff_code(128) == 1048550,
                pow2(13) == 8192,
                pow2(12) == 4096,
        ;
    } else if j == 98 {
        assert(code_order(98) == 128 && code_order(99) == 130);
        assert(huff_bits(128) == 20 && huff_bits(130) == 20);
        assert(huff_code(128) == 1048550 && huff_code(130) == 1048551);
        assert(code_end(128) <= code_start(130)) by (nonlinear_arith)
            requires
                huff_bits(128) == 20,
                huff_bits(130) == 20,
                huff_code(128) == 1048550,
                huff_code(130) == 1048551,
                pow2(12) == 4096,
                pow2(12) == 4096,
        ;
    } else if j == 99 {
        assert(code_order(99) == 130 && code_order(100) == 131);
        assert(huff_bits(130) == 20 && huff_bits(131) == 20);
        assert(huff_code(130) == 1048551 && huff_code(131) == 1048552);
        assert(code_end(130) <= code_start(131)) by (nonlinear_arith)
            requires
                huff_bits(130) == 20,
                huff_bits(131) == 20,
                huff_code(130) == 1048551,
                huff_code(131) == 1048552,
                pow2(12) == 4096,
                pow2(12) == 4096,
        ;
    } else if j == 100 {
        assert(code_order(100) == 131 && code_order(101) == 162);
        assert(huff_bits(131) == 20 && huff_bits(162) == 20);
        assert(huff_code(131) == 1048552 && huff_code(162) == 1048553);
        assert(code_end(131) <= code_start(162)) by (nonlinear_arith)
            requires
                huff_bits(131) == 20,
                huff_bits(162) == 20,
                huff_code(131) == 1048552,
                huff_code(162) == 1048553,
                pow2(12) == 4096,
                pow2(12) == 4096,
        ;
    } else if j == 101 {
        assert(code_order(101) == 162 && code_order(102) == 184);
        assert(huff_bits(162) == 20 && huff_bits(184) == 20);
        assert(huff_code(162) == 1048553 && huff_code(184) == 1048554);
        assert(code_end(162) <= code_start(184)) by (nonlinear_arith)
            requires
                huff_bits(162) == 20,
                huff_bits(184) == 20,
                huff_code(162) == 1048553,
                huff_code(184) == 1048554,
                pow2(12) == 4096,
                pow2(12) == 4096,
        ;
    } else if j == 102 {
        assert(code_order(102) == 184 && code_order(103) == 194);
        assert(huff_bits(184) == 20 && huff_bits(194) == 20);
        assert(huff_code(184) == 1048554 && huff_code(194) == 1048555);
        assert(code_end(184) <= code_start(194)) by (nonlinear_arith)
            requires
                huff_bits(184) == 20,
                huff_bits(194) == 20,
                huff_code(184) == 1048554,
                huff_code(194) == 1048555,
                pow2(12) == 4096,
                pow2(12) == 4096,
        ;
    } else if j == 103 {
        assert(code_order(103) == 194 && code_order(104) == 224);
        assert(huff_bits(194) == 20 && huff_bits(224) == 20);
        assert(huff_code(194) == 1048555 && huff_code(224) == 1048556);
        assert(code_end(194) <= code_start(224)) by (nonlinear_arith)
            requires
                huff_bits(194) == 20,
                huff_bits(224) == 20,
                huff_code(194) == 1048555,
                huff_code(224) == 1048556,
                pow2(12) == 4096,
                pow2(12) == 4096,
        ;
    } else if j == 104 {
        assert(code_order(104) == 224 && code_order(105) == 226);
        assert(huff_bits(224) == 20 && huff_bits(226) == 20);
        assert(huff_code(224) == 1048556 && huff_code(226) == 1048557);
        assert(code_end(224) <= code_start(226)) by (nonlinear_arith)
            requires
                huff_bits(224) == 20,
                huff_bits(226) == 20,
                huff_code(224) == 1048556,
                huff_code(226) == 1048557,
                pow2(12) == 4096,
                pow2(12) == 4096,
        ;
    } else if j == 105 {
        assert(code_order(105) == 226 && code_order(106) == 153);
        assert(huff_bits(226) == 20 && huff_bits(153) == 21);
        assert(huff_code(226) == 1048557 && huff_code(153) == 2097116);
        assert(code_end(226) <= code_start(153)) by (nonlinear_arith)
            requires
                huff_bits(226) == 20,
                huff_bits(153) == 21,
                huff_code(226) == 1048557,
                huff_code(153) == 2097116,
                pow2(12) == 4096,
                pow2(11) == 2048,
        ;
    } else if j == 106 {
        assert(code_order(106) == 153 && code_order(107) == 161);
        assert(huff_bits(153) == 21 && huff_bits(161) == 21);
        assert(huff_code(153) == 2097116 && huff_code(161) == 2097117);
        assert(code_end(153) <= code_start(161)) by (nonlinear_arith)
            requires
                huff_bits(153) == 21,
                huff_bits(161) == 21,
                huff_code(153) == 2097116,
                huff_code(161) == 2097117,
                pow2(11) == 2048,
                pow2(11) == 2048,
        ;
    } else if j == 107 {
        assert(code_order(107) == 161 && code_order(108) == 167);
        assert(huff_bits(161) == 21 && huff_bits(167) == 21);
        assert(huff_code(161) == 2097117 && huff_code(167) == 2097118);
        assert(code_end(161) <= code_start(167)) by (nonlinear_arith)
            requires
                huff_bits(161) == 21,
                huff_bits(167) == 21,
                huff_code(161) == 2097117,
                huff_code(167) == 2097118,
                pow2(11) == 2048,
                pow2(11) == 2048,
        ;
    } else if j == 108 {
        assert(code_order(108) == 167 && code_order(109) == 172);
        assert(huff_bits(167) == 21 && huff_bits(172) == 21);
        assert(huff_code(167) == 2097118 && huff_code(172) == 2097119);
        assert(code_end(167) <= code_start(172)) by (nonlinear_arith)
            requires
                huff_bits(167) == 21,
                huff_bits(172) == 21,
                huff_code(167) == 2097118,
                huff_code(172) == 2097119,
                pow2(11) == 2048,
                pow2(11) == 2048,
        ;
    } else if j == 109 {
        assert(code_order(109) == 172 && code_order(110) == 176);
        assert(huff_bits(172) == 21 && huff_bits(176) == 21);
        assert(huff_code(172) == 2097119 && huff_code(176) == 2097120);
        assert(code_end(172) <= code_start(176)) by (nonlinear_arith)
            requires
                huff_bits(172) == 21,
                huff_bits(176) == 21,
                huff_code(172) == 2097119,
                huff_code(176) == 2097120,
                pow2(11) == 2048,
                pow2(11) == 2048,
        ;
    } else if j == 110 {
        assert(code_order(110) == 176 && code_order(111) == 177);
        assert(huff_bits(176) == 21 && huff_bits(177) == 21);
        assert(huff_code(176) == 2097120 && huff_code(177) == 2097121);
        assert(code_end(176) <= code_start(177)) by (nonlinear_arith)
            requires
                huff_bits(176) == 21,
                huff_bits(177) == 21,
                huff_code(176) == 2097120,
                huff_code(177) == 2097121,
                pow2(11) == 2048,
                pow2(11) == 2048,
        ;
    } else if j == 111 {
        assert(code_order(111) == 177 && code_order(112) == 179);
        assert(huff_bits(177) == 21 && huff_bits(179) == 21);
        assert(huff_code(177) == 2097121 && huff_code(179) == 2097122);
        assert(code_end(177) <= code_start(179)) by (nonlinear_arith)
            requires
                huff_bits(177) == 21,
                huff_bits(179) == 21,
                huff_code(177) == 2097121,
                huff_code(179) == 2097122,
                pow2(11) == 2048,
                pow2(11) == 2048,
        ;
    } else {
    }
}

proof fn lemma_adjacent_7(j: int)
    requires
        112 <= j < 128,
    ensures
        code_end(code_order(j)) <= code_start(code_order(j + 1)),
{
    lemma2_to64();
    if j == 112 {
        assert(code_order(112) == 179 && code_order(113) == 209);
        assert(huff_bits(179) == 21 && huff_bits(209) == 21);
        assert(huff_code(179) == 2097122 && huff_code(209) == 2097123);
        assert(code_end(179) <= code_start(209)) by (nonlinear_arith)
            requires
                huff_bits(179) == 21,
                huff_bits(209) == 21,
                huff_code(179) == 2097122,
                huff_code(209) == 2097123,
                pow2(11) == 2048,
                pow2(11) == 2048,
        ;
    } else if j == 113 {
        assert(code_order(113) == 209 && code_order(114) == 216);
        assert(huff_bits(209) == 21 && huff_bits(216) == 21);
        assert(huff_code(209) == 2097123 && huff_code(216) == 2097124);
        assert(code_end(209) <= code_start(216)) by (nonlinear_arith)
            requires
                huff_bits(209) == 21,
                huff_bits(216) == 21,
                huff_code(209) == 2097123,
                huff_code(216) == 2097124,
                pow2(11) == 2048,
                pow2(11) == 2048,
        ;
    } else if j == 114 {
        assert(code_order(114) == 216 && code_order(115) == 217);
        assert(huff_bits(216) == 21 && huff_bits(217) == 21);
        assert(huff_code(216) == 2097124 && huff_code(217) == 2097125);
        assert(code_end(216) <= code_start(217)) by (nonlinear_arith)
            requires
                huff_bits(216) == 21,
                huff_bits(217) == 21,
                huff_code(216) == 2097124,
                huff_code(217) == 2097125,
                pow2(11) == 2048,
                pow2(11) == 2048,
        ;
    } else if j == 115 {
        assert(code_order(115) == 217 && code_order(116) == 227);
        assert(huff_bits(217) == 21 && huff_bits(227) == 21);
        assert(huff_code(217) == 2097125 && huff_code(227) == 2097126);
        assert(code_end(217) <= code_start(227)) by (nonlinear_arith)
            requires
                huff_bits(217) == 21,
                huff_bits(227) == 21,
                huff_code(217) == 2097125,
                huff_code(227) == 2097126,
                pow2(11) == 2048,
                pow2(11) == 2048,
        ;
    } else if j == 116 {
        assert(code_order(116) == 227 && code_order(117) == 229);
        assert(huff_bits(227) == 21 && huff_bits(229) == 21);
        assert(huff_code(227) == 2097126 && huff_code(229) == 2097127);
        assert(code_end(227) <= code_start(229)) by (nonlinear_arith)
            requires
                huff_bits(227) == 21,
                huff_bits(229) == 21,
                huff_code(227) == 2097126,
                huff_code(229) == 2097127,
                pow2(11) == 2048,
                pow2(11) == 2048,
        ;
    } else if j == 117 {
        assert(code_order(117) == 229 && code_order(118) == 230);
        assert(huff_bits(229) == 21 && huff_bits(230) == 21);
        assert(huff_code(229) == 2097127 && huff_code(230) == 2097128);
        assert(code_end(229) <= code_start(230)) by (nonlinear_arith)
            requires
                huff_bits(229) == 21,
                huff_bits(230) == 21,
                huff_code(229) == 2097127,
                huff_code(230) == 2097128,
                pow2(11) == 2048,
                pow2(11) == 2048,
        ;
    } else if j == 118 {
        assert(code_order(118) == 230 && code_order(119) == 129);
        assert(huff_bits(230) == 21 && huff_bits(129) == 22);
        assert(huff_code(230) == 2097128 && huff_code(129) == 4194258);
        assert(code_end(230) <= code_start(129)) by (nonlinear_arith)
            requires
                huff_bits(230) == 21,
                huff_bits(129) == 22,
                huff_code(230) == 2097128,
                huff_code(129) == 4194258,
                pow2(11) == 2048,
                pow2(10) == 1024,
        ;
    } else if j == 119 {
        assert(code_order(119) == 129 && code_order(120) == 132);
        assert(huff_bits(129) == 22 && huff_bits(132) == 22);
        assert(huff_code(129) == 4194258 && huff_code(132) == 4194259);
        assert(code_end(129) <= code_start(132)) by (nonlinear_arith)
            requires
                huff_bits(129) == 22,
                huff_bits(132) == 22,
                huff_code(129) == 4194258,
                huff_code(132) == 4194259,
                pow2(10) == 1024,
                pow2(10) == 1024,
        ;
    } else if j == 120 {
        assert(code_order(120) == 132 && code_order(121) == 133);
        assert(huff_bits(132) == 22 && huff_bits(133) == 22);
        assert(huff_code(132) == 4194259 && huff_code(133) == 4194260);
        assert(code_end(132) <= code_start(133)) by (nonlinear_arith)
            requires
                huff_bits(132) == 22,
                huff_bits(133) == 22,
                huff_code(132) == 4194259,
                huff_code(133) == 4194260,
                pow2(10) == 1024,
                pow2(10) == 1024,
        ;
    } else if j == 121 {
        assert(code_order(121) == 133 && code_order(122) == 134);
        assert(huff_bits(133) == 22 && huff_bits(134) == 22);
        assert(huff_code(133) == 4194260 && huff_code(134) == 4194261);
        assert(code_end(133) <= code_start(134)) by (nonlinear_arith)
            requires
                huff_bits(133) == 22,
                huff_bits(134) == 22,
                huff_code(133) == 4194260,
                huff_code(134) == 4194261,
                pow2(10) == 1024,
                pow2(10) == 1024,
        ;
    } else if j == 122 {
        assert(code_order(122) == 134 && code_order(123) == 136);
        assert(huff_bits(134) == 22 && huff_bits(136) == 22);
        assert(huff_code(134) == 4194261 && huff_code(136) == 4194262);
        assert(code_end(134) <= code_start(136)) by (nonlinear_arith)
            requires
                huff_bits(134) == 22,
                huff_bits(136) == 22,
                huff_code(134) == 4194261,
                huff_code(136) == 4194262,
                pow2(10) == 1024,
                pow2(10) == 1024,
        ;
    } else if j == 123 {
        assert(code_order(123) == 136 && code_order(124) == 146);
        assert(huff_bits(136) == 22 && huff_bits(146) == 22);
        assert(huff_code(136) == 4194262 && huff_code(146) == 4194263);
        assert(code_end(136) <= code_start(146)) by (nonlinear_arith)
            requires
                huff_bits(136) == 22,
                huff_bits(146) == 22,
                huff_code(136) == 4194262,
                huff_code(146) == 4194263,
                pow2(10) == 1024,
                pow2(10) == 1024,
        ;
    } else if j == 124 {
        assert(code_order(124) == 146 && code_order(125) == 154);
        assert(huff_bits(146) == 22 && huff_bits(154) == 22);
        assert(huff_code(146) == 4194263 && huff_code(154) == 4194264);
        assert(code_end(146) <= code_start(154)) by (nonlinear_arith)
            requires
                huff_bits(146) == 22,
                huff_bits(154) == 22,
                huff_code(146) == 4194263,
                huff_code(154) == 4194264,
                pow2(10) == 1024,
                pow2(10) == 1024,
        ;
    } else if j == 125 {
        assert(code_order(125) == 154 && code_order(126) == 156);
        assert(huff_bits(154) == 22 && huff_bits(156) == 22);
        assert(huff_code(154) == 4194264 && huff_code(156) == 4194265);
        assert(code_end(154) <= code_start(156)) by (nonlinear_arith)
            requires
                huff_bits(154) == 22,
                huff_bits(156) == 22,
                huff_code(154) == 4194264,
                huff_code(156) == 4194265,
                pow2(10) == 1024,
                pow2(10) == 1024,
        ;
    } else if j == 126 {
        assert(code_order(126) == 156 && code_order(127) == 160);
        assert(huff_bits(156) == 22 && huff_bits(160) == 22);
        assert(huff_code(156) == 4194265 && huff_code(160) == 4194266);
        assert(code_end(156) <= code_start(160)) by (nonlinear_arith)
            requires
                huff_bits(156) == 22,
                huff_bits(160) == 22,
                huff_code(156) == 4194265,
                huff_code(160) == 4194266,
                pow2(10) == 1024,
                pow2(10) == 1024,
        ;
    } else if j == 127 {
        assert(code_order(127) == 160 && code_order(128) == 163);
        assert(huff_bits(160) == 22 && huff_bits(163) == 22);
        assert(huff_code(160) == 4194266 && huff_code(163) == 4194267);
        assert(code_end(160) <= code_start(163)) by (nonlinear_arith)
            requires
                huff_bits(160) == 22,
                huff_bits(163) == 22,
                huff_code(160) == 4194266,
                huff_code(163) == 4194267,
                pow2(10) == 1024,
                pow2(10) == 1024,
        ;
    } else {
    }
}

proof fn lemma_adjacent_8(j: int)
    requires
        128 <= j < 144,
    ensures
        code_end(code_order(j)) <= code_start(code_order(j + 1)),
{
    lemma2_to64();
    if j == 128 {
        assert(code_order(128) == 163 && code_order(129) == 164);
        assert(huff_bits(163) == 22 && huff_bits(164) == 22);
        assert(huff_code(163) == 4194267 && huff_code(164) == 4194268);
        assert(code_end(163) <= code_start(164)) by (nonlinear_arith)
            requires
                huff_bits(163) == 22,
                huff_bits(164) == 22,
                huff_code(163) == 4194267,
                huff_code(164) == 4194268,
                pow2(10) == 1024,
                pow2(10) == 1024,
        ;
    } else if j == 129 {
        assert(code_order(129) == 164 && code_order(130) == 169);
        assert(huff_bits(164) == 22 && huff_bits(169) == 22);
        assert(huff_code(164) == 4194268 && huff_code(169) == 4194269);
        assert(code_end(164) <= code_start(169)) by (nonlinear_arith)
            requires
                huff_bits(164) == 22,
                huff_bits(169) == 22,
                huff_code(164) == 4194268,
                huff_code(169) == 4194269,
                pow2(10) == 1024,
                pow2(10) == 1024,
        ;
    } else if j == 130 {
        assert(code_order(130) == 169 && code_order(131) == 170);
        assert(huff_bits(169) == 22 && huff_bits(170) == 22);
        assert(huff_code(169) == 4194269 && huff_code(170) == 4194270);
        assert(code_end(169) <= code_start(170)) by (nonlinear_arith)
            requires
                huff_bits(169) == 22,
                huff_bits(170) == 22,
                huff_code(169) == 4194269,
                huff_code(170) == 4194270,
                pow2(10) == 1024,
                pow2(10) == 1024,
        ;
    } else if j == 131 {
        assert(code_order(131) == 170 && code_order(132) == 173);
        assert(huff_bits(170) == 22 && huff_bits(173) == 22);
        assert(huff_code(170) == 4194270 && huff_code(173) == 4194271);
        assert(code_end(170) <= code_start(173)) by (nonlinear_arith)
            requires
                huff_bits(170) == 22,
                huff_bits(173) == 22,
                huff_code(170) == 4194270,
                huff_code(173) == 4194271,
                pow2(10) == 1024,
                pow2(10) == 1024,
        ;
    } else if j == 132 {
        assert(code_order(132) == 173 && code_order(133) == 178);
        assert(huff_bits(173) == 22 && huff_bits(178) == 22);
        assert(huff_code(173) == 4194271 && huff_code(178) == 4194272);
        assert(code_end(173) <= code_start(178)) by (nonlinear_arith)
            requires
                huff_bits(173) == 22,
                huff_bits(178) == 22,
                huff_code(173) == 4194271,
                huff_code(178) == 4194272,
                pow2(10) == 1024,
                pow2(10) == 1024,
        ;
    } else if j == 133 {
        assert(code_order(133) == 178 && code_order(134) == 181);
        assert(huff_bits(178) == 22 && huff_bits(181) == 22);
        assert(huff_code(178) == 4194272 && huff_code(181) == 4194273);
        assert(code_end(178) <= code_start(181)) by (nonlinear_arith)
            requires
                huff_bits(178) == 22,
                huff_bits(181) == 22,
                huff_code(178) == 4194272,
                huff_code(181) == 4194273,
                pow2(10) == 1024,
                pow2(10) == 1024,
        ;
    } else if j == 134 {
        assert(code_order(134) == 181 && code_order(135) == 185);
        assert(huff_bits(181) == 22 && huff_bits(185) == 22);
        assert(huff_code(181) == 4194273 && huff_code(185) == 4194274);
        assert(code_end(181) <= code_start(185)) by (nonlinear_arith)
            requires
                huff_bits(181) == 22,
                huff_bits(185) == 22,
                huff_code(181) == 4194273,
                huff_code(185) == 4194274,
                pow2(10) == 1024,
                pow2(10) == 1024,
        ;
    } else if j == 135 {
        assert(code_order(135) == 185 && code_order(136) == 186);
        assert(huff_bits(185) == 22 && huff_bits(186) == 22);
        assert(huff_code(185) == 4194274 && huff_code(186) == 4194275);
        assert(code_end(185) <= code_start(186)) by (nonlinear_arith)
            requires
                huff_bits(185) == 22,
                huff_bits(186) == 22,
                huff_code(185) == 4194274,
                huff_code(186) == 4194275,
                pow2(10) == 1024,
                pow2(10) == 1024,
        ;
    } else if j == 136 {
        assert(code_order(136) == 186 && code_order(137) == 187);
        assert(huff_bits(186) == 22 && huff_bits(187) == 22);
        assert(huff_code(186) == 4194275 && huff_code(187) == 4194276);
        assert(code_end(186) <= code_start(187)) by (nonlinear_arith)
            requires
                huff_bits(186) == 22,
                huff_bits(187) == 22,
                huff_code(186) == 4194275,
                huff_code(187) == 4194276,
                pow2(10) == 1024,
                pow2(10) == 1024,
        ;
    } else if j == 137 {
        assert(code_order(137) == 187 && code_order(138) == 189);
        assert(huff_bits(187) == 22 && huff_bits(189) == 22);
        assert(huff_code(187) == 4194276 && huff_code(189) == 4194277);
        assert(code_end(187) <= code_start(189)) by (nonlinear_arith)
            requires
                huff_bits(187) == 22,
                huff_bits(189) == 22,
                huff_code(187) == 4194276,
                huff_code(189) == 4194277,
                pow2(10) == 1024,
                pow2(10) == 1024,
        ;
    } else if j == 138 {
        assert(code_order(138) == 189 && code_order(139) == 190);
        assert(huff_bits(189) == 22 && huff_bits(190) == 22);
        assert(huff_code(189) == 4194277 && huff_code(190) == 4194278);
        assert(code_end(189) <= code_start(190)) by (nonlinear_arith)
            requires
                huff_bits(189) == 22,
                huff_bits(190) == 22,
                huff_code(189) == 4194277,
                huff_code(190) == 4194278,
                pow2(10) == 1024,
                pow2(10) == 1024,
        ;
    } else if j == 139 {
        assert(code_order(139) == 190 && code_order(140) == 196);
        assert(huff_bits(190) == 22 && huff_bits(196) == 22);
        assert(huff_code(190) == 4194278 && huff_code(196) == 4194279);
        assert(code_end(190) <= code_start(196)) by (nonlinear_arith)
            requires
                huff_bits(190) == 22,
                huff_bits(196) == 22,
                huff_code(190) == 4194278,
                huff_code(196) == 4194279,
                pow2(10) == 1024,
                pow2(10) == 1024,
        ;
    } else if j == 140 {
        assert(code_order(140) == 196 && code_order(141) == 198);
        assert(huff_bits(196) == 22 && huff_bits(198) == 22);
        assert(huff_code(196) == 4194279 && huff_code(198) == 4194280);
        assert(code_end(196) <= code_start(198)) by (nonlinear_arith)
            requires
                huff_bits(196) == 22,
                huff_bits(198) == 22,
                huff_code(196) == 4194279,
                huff_code(198) == 4194280,
                pow2(10) == 1024,
                pow2(10) == 1024,
        ;
    } else if j == 141 {
        assert(code_order(141) == 198 && code_order(142) == 228);
        assert(huff_bits(198) == 22 && huff_bits(228) == 22);
        assert(huff_code(198) == 4194280 && huff_code(228) == 4194281);
        assert(code_end(198) <= code_start(228)) by (nonlinear_arith)
            requires
                huff_bits(198) == 22,
                huff_bits(228) == 22,
                huff_code(198) == 4194280,
                huff_code(228) == 4194281,
                pow2(10) == 1024,
                pow2(10) == 1024,
        ;
    } else if j == 142 {
        assert(code_order(142) == 228 && code_order(143) == 232);
        assert(huff_bits(228) == 22 && huff_bits(232) == 22);
        assert(huff_code(228) == 4194281 && huff_code(232) == 4194282);
        assert(code_end(228) <= code_start(232)) by (nonlinear_arith)
            requires
                huff_bits(228) == 22,
                huff_bits(232) == 22,
                huff_code(228) == 4194281,
                huff_code(232) == 4194282,
                pow2(10) == 1024,
                pow2(10) == 1024,
        ;
    } else if j == 143 {
        assert(code_order(143) == 232 && code_order(144) == 233);
        assert(huff_bits(232) == 22 && huff_bits(233) == 22);
        assert(huff_code(232) == 4194282 && huff_code(233) == 4194283);
        assert(code_end(232) <= code_start(233)) by (nonlinear_arith)
            requires
                huff_bits(232) == 22,
                huff_bits(233) == 22,
                huff_code(232) == 4194282,
                huff_code(233) == 4194283,
                pow2(10) == 1024,
                pow2(10) == 1024,
        ;
    } else {
    }
}

proof fn lemma_adjacent_9(j: int)
    requires
        144 <= j < 160,
    ensures
        code_end(code_order(j)) <= code_start(code_order(j + 1)),
{
    lemma2_to64();
    if j == 144 {
        assert(code_order(144) == 233 && code_order(145) == 1);
        assert(huff_bits(233) == 22 && huff_bits(1) == 23);
        assert(huff_code(233) == 4194283 && huff_code(1) == 8388568);
        assert(code_end(233) <= code_start(1)) by (nonlinear_arith)
            requires
                huff_bits(233) == 22,
                huff_bits(1) == 23,
                huff_code(233) == 4194283,
                huff_code(1) == 8388568,
                pow2(10) == 1024,
                pow2(9) == 512,
        ;
    } else if j == 145 {
        assert(code_order(145) == 1 && code_order(146) == 135);
        assert(huff_bits(1) == 23 && huff_bits(135) == 23);
        assert(huff_code(1) == 8388568 && huff_code(135) == 8388569);
        assert(code_end(1) <= code_start(135)) by (nonlinear_arith)
            requires
                huff_bits(1) == 23,
                huff_bits(135) == 23,
                huff_code(1) == 8388568,
                huff_code(135) == 8388569,
                pow2(9) == 512,
                pow2(9) == 512,
        ;
    } else if j == 146 {
        assert(code_order(146) == 135 && code_order(147) == 137);
        assert(huff_bits(135) == 23 && huff_bits(137) == 23);
        assert(huff_code(135) == 8388569 && huff_code(137) == 8388570);
        assert(code_end(135) <= code_start(137)) by (nonlinear_arith)
            requires
                huff_bits(135) == 23,
                huff_bits(137) == 23,
                huff_code(135) == 8388569,
                huff_code(137) == 8388570,
                pow2(9) == 512,
                pow2(9) == 512,
        ;
    } else if j == 147 {
        assert(code_order(147) == 137 && code_order(148) == 138);
        assert(huff_bits(137) == 23 && huff_bits(138) == 23);
        assert(huff_code(137) == 8388570 && huff_code(138) == 8388571);
        assert(code_end(137) <= code_start(138)) by (nonlinear_arith)
            requires
                huff_bits(137) == 23,
                huff_bits(138) == 23,
                huff_code(137) == 8388570,
                huff_code(138) == 8388571,
                pow2(9) == 512,
                pow2(9) == 512,
        ;
    } else if j == 148 {
        assert(code_order(148) == 138 && code_order(149) == 139);
        assert(huff_bits(138) == 23 && huff_bits(139) == 23);
        assert(huff_code(138) == 8388571 && huff_code(139) == 8388572);
        assert(code_end(138) <= code_start(139)) by (nonlinear_arith)
            requires
                huff_bits(138) == 23,
                huff_bits(139) == 23,
                huff_code(138) == 8388571,
                huff_code(139) == 8388572,
                pow2(9) == 512,
                pow2(9) == 512,
        ;
    } else if j == 149 {
        assert(code_order(149) == 139 && code_order(150) == 140);
        assert(huff_bits(139) == 23 && huff_bits(140) == 23);
        assert(huff_code(139) == 8388572 && huff_code(140) == 8388573);
        assert(code_end(139) <= code_start(140)) by (nonlinear_arith)
            requires
                huff_bits(139) == 23,
                huff_bits(140) == 23,
                huff_code(139) == 8388572,
                huff_code(140) == 8388573,
                pow2(9) == 512,
                pow2(9) == 512,
        ;
    } else if j == 150 {
        assert(code_order(150) == 140 && code_order(151) == 141);
        assert(huff_bits(140) == 23 && huff_bits(141) == 23);
        assert(huff_code(140) == 8388573 && huff_code(141) == 8388574);
        assert(code_end(140) <= code_start(141)) by (nonlinear_arith)
            requires
                huff_bits(140) == 23,
                huff_bits(141) == 23,
                huff_code(140) == 8388573,
                huff_code(141) == 8388574,
                pow2(9) == 512,
                pow2(9) == 512,
        ;
    } else if j == 151 {
        assert(code_order(151) == 141 && code_order(152) == 143);
        assert(huff_bits(141) == 23 && huff_bits(143) == 23);
        assert(huff_code(141) == 8388574 && huff_code(143) == 8388575);
        assert(code_end(141) <= code_start(143)) by (nonlinear_arith)
            requires
                huff_bits(141) == 23,
                huff_bits(143) == 23,
                huff_code(141) == 8388574,
                huff_code(143) == 8388575,
                pow2(9) == 512,
                pow2(9) == 512,
        ;
    } else if j == 152 {
        assert(code_order(152) == 143 && code_order(153) == 147);
        assert(huff_bits(143) == 23 && huff_bits(147) == 23);
        assert(huff_code(143) == 8388575 && huff_code(147) == 8388576);
        assert(code_end(143) <= code_start(147)) by (nonlinear_arith)
            requires
                huff_bits(143) == 23,
                huff_bits(147) == 23,
                huff_code(143) == 8388575,
                huff_code(147) == 8388576,
                pow2(9) == 512,
                pow2(9) == 512,
        ;
    } else if j == 153 {
        assert(code_order(153) == 147 && code_order(154) == 149);
        assert(huff_bits(147) == 23 && huff_bits(149) == 23);
        assert(huff_code(147) == 8388576 && huff_code(149) == 8388577);
        assert(code_end(147) <= code_start(149)) by (nonlinear_arith)
            requires
                huff_bits(147) == 23,
                huff_bits(149) == 23,
                huff_code(147) == 8388576,
                huff_code(149) == 8388577,
                pow2(9) == 512,
                pow2(9) == 512,
        ;
    } else if j == 154 {
        assert(code_order(154) == 149 && code_order(155) == 150);
        assert(huff_bits(149) == 23 && huff_bits(150) == 23);
        assert(huff_code(149) == 8388577 && huff_code(150) == 8388578);
        assert(code_end(149) <= code_start(150)) by (nonlinear_arith)
            requires
                huff_bits(149) == 23,
                huff_bits(150) == 23,
                huff_code(149) == 8388577,
                huff_code(150) == 8388578,
                pow2(9) == 512,
                pow2(9) == 512,
        ;
    } else if j == 155 {
        assert(code_order(155) == 150 && code_order(156) == 151);
        assert(huff_bits(150) == 23 && huff_bits(151) == 23);
        assert(huff_code(150) == 8388578 && huff_code(151) == 8388579);
        assert(code_end(150) <= code_start(151)) by (nonlinear_arith)
            requires
                huff_bits(150) == 23,
                huff_bits(151) == 23,
                huff_code(150) == 8388578,
                huff_code(151) == 8388579,
                pow2(9) == 512,
                pow2(9) == 512,
        ;
    } else if j == 156 {
        assert(code_order(156) == 151 && code_order(157) == 152);
        assert(huff_bits(151) == 23 && huff_bits(152) == 23);
        assert(huff_code(151) == 8388579 && huff_code(152) == 8388580);
        assert(code_end(151) <= code_start(152)) by (nonlinear_arith)
            requires
                huff_bits(151) == 23,
                huff_bits(152) == 23,
                huff_code(151) == 8388579,
                huff_code(152) == 8388580,
                pow2(9) == 512,
                pow2(9) == 512,
        ;
    } else if j == 157 {
        assert(code_order(157) == 152 && code_order(158) == 155);
        assert(huff_bits(152) == 23 && huff_bits(155) == 23);
        assert(huff_code(152) == 8388580 && huff_code(155) == 8388581);
        assert(code_end(152) <= code_start(155)) by (nonlinear_arith)
            requires
                huff_bits(152) == 23,
                huff_bits(155) == 23,
                huff_code(152) == 8388580,
                huff_code(155) == 8388581,
                pow2(9) == 512,
                pow2(9) == 512,
        ;
    } else if j == 158 {
        assert(code_order(158) == 155 && code_order(159) == 157);
        assert(huff_bits(155) == 23 && huff_bits(157) == 23);
        assert(huff_code(155) == 8388581 && huff_code(157) == 8388582);
        assert(code_end(155) <= code_start(157)) by (nonlinear_arith)
            requires
                huff_bits(155) == 23,
                huff_bits(157) == 23,
                huff_code(155) == 8388581,
                huff_code(157) == 8388582,
                pow2(9) == 512,
                pow2(9) == 512,
        ;
    } else if j == 159 {
        assert(code_order(159) == 157 && code_order(160) == 158);
        assert(huff_bits(157) == 23 && huff_bits(158) == 23);
        assert(huff_code(157) == 8388582 && huff_code(158) == 8388583);
        assert(code_end(157) <= code_start(158)) by (nonlinear_arith)
            requires
                huff_bits(157) == 23,
                huff_bits(158) == 23,
                huff_code(157) == 8388582,
                huff_code(158) == 8388583,
                pow2(9) == 512,
                pow2(9) == 512,
        ;
    } else {
    }
}

proof fn lemma_adjacent_10(j: int)
    requires
        160 <= j < 176,
    ensures
        code_end(code_order(j)) <= code_start(code_order(j + 1)),
{
    lemma2_to64();
    if j == 160 {
        assert(code_order(160) == 158 && code_order(161) == 165);
        assert(huff_bits(158) == 23 && huff_bits(165) == 23);
        assert(huff_code(158) == 8388583 && huff_code(165) == 8388584);
        assert(code_end(158) <= code_start(165)) by (nonlinear_arith)
            requires
                huff_bits(158) == 23,
                huff_bits(165) == 23,
                huff_code(158) == 8388583,
                huff_code(165) == 8388584,
                pow2(9) == 512,
                pow2(9) == 512,
        ;
    } else if j == 161 {
        assert(code_order(161) == 165 && code_order(162) == 166);
        assert(huff_bits(165) == 23 && huff_bits(166) == 23);
        assert(huff_code(165) == 8388584 && huff_code(166) == 8388585);
        assert(code_end(165) <= code_start(166)) by (nonlinear_arith)
            requires
                huff_bits(165) == 23,
                huff_bits(166) == 23,
                huff_code(165) == 8388584,
                huff_code(166) == 8388585,
                pow2(9) == 512,
                pow2(9) == 512,
        ;
    } else if j == 162 {
        assert(code_order(162) == 166 && code_order(163) == 168);
        assert(huff_bits(166) == 23 && huff_bits(168) == 23);
        assert(huff_code(166) == 8388585 && huff_code(168) == 8388586);
        assert(code_end(166) <= code_start(168)) by (nonlinear_arith)
            requires
                huff_bits(166) == 23,
                huff_bits(168) == 23,
                huff_code(166) == 8388585,
                huff_code(168) == 8388586,
                pow2(9) == 512,
                pow2(9) == 512,
        ;
    } else if j == 163 {
        assert(code_order(163) == 168 && code_order(164) == 174);
        assert(huff_bits(168) == 23 && huff_bits(174) == 23);
        assert(huff_code(168) == 8388586 && huff_code(174) == 8388587);
        assert(code_end(168) <= code_start(174)) by (nonlinear_arith)
            requires
                huff_bits(168) == 23,
                huff_bits(174) == 23,
                huff_code(168) == 8388586,
                huff_code(174) == 8388587,
                pow2(9) == 512,
                pow2(9) == 512,
        ;
    } else if j == 164 {
        assert(code_order(164) == 174 && code_order(165) == 175);
        assert(huff_bits(174) == 23 && huff_bits(175) == 23);
        assert(huff_code(174) == 8388587 && huff_code(175) == 8388588);
        assert(code_end(174) <= code_start(175)) by (nonlinear_arith)
            requires
                huff_bits(174) == 23,
                huff_bits(175) == 23,
                huff_code(174) == 8388587,
                huff_code(175) == 8388588,
                pow2(9) == 512,
                pow2(9) == 512,
        ;
    } else if j == 165 {
        assert(code_order(165) == 175 && code_order(166) == 180);
        assert(huff_bits(175) == 23 && huff_bits(180) == 23);
        assert(huff_code(175) == 8388588 && huff_code(180) == 8388589);
        assert(code_end(175) <= code_start(180)) by (nonlinear_arith)
            requires
                huff_bits(175) == 23,
                huff_bits(180) == 23,
                huff_code(175) == 8388588,
                huff_code(180) == 8388589,
                pow2(9) == 512,
                pow2(9) == 512,
        ;
    } else if j == 166 {
        assert(code_order(166) == 180 && code_order(167) == 182);
        assert(huff_bits(180) == 23 && huff_bits(182) == 23);
        assert(huff_code(180) == 8388589 && huff_code(182) == 8388590);
        assert(code_end(180) <= code_start(182)) by (nonlinear_arith)
            requires
                huff_bits(180) == 23,
                huff_bits(182) == 23,
                huff_code(180) == 8388589,
                huff_code(182) == 8388590,
                pow2(9) == 512,
                pow2(9) == 512,
        ;
    } else if j == 167 {
        assert(code_order(167) == 182 && code_order(168) == 183);
        assert(huff_bits(182) == 23 && huff_bits(183) == 23);
        assert(huff_code(182) == 8388590 && huff_code(183) == 8388591);
        assert(code_end(182) <= code_start(183)) by (nonlinear_arith)
            requires
                huff_bits(182) == 23,
                huff_bits(183) == 23,
                huff_code(182) == 8388590,
                huff_code(183) == 8388591,
                pow2(9) == 512,
                pow2(9) == 512,
        ;
    } else if j == 168 {
        assert(code_order(168) == 183 && code_order(169) == 188);
        assert(huff_bits(183) == 23 && huff_bits(188) == 23);
        assert(huff_code(183) == 8388591 && huff_code(188) == 8388592);
        assert(code_end(183) <= code_start(188)) by (nonlinear_arith)
            requires
                huff_bits(183) == 23,
                huff_bits(188) == 23,
                huff_code(183) == 8388591,
                huff_code(188) == 8388592,
                pow2(9) == 512,
                pow2(9) == 512,
        ;
    } else if j == 169 {
        assert(code_order(169) == 188 && code_order(170) == 191);
        assert(huff_bits(188) == 23 && huff_bits(191) == 23);
        assert(huff_code(188) == 8388592 && huff_code(191) == 8388593);
        assert(code_end(188) <= code_start(191)) by (nonlinear_arith)
            requires
                huff_bits(188) == 23,
                huff_bits(191) == 23,
                huff_code(188) == 8388592,
                huff_code(191) == 8388593,
                pow2(9) == 512,
                pow2(9) == 512,
        ;
    } else if j == 170 {
        assert(code_order(170) == 191 && code_order(171) == 197);
        assert(huff_bits(191) == 23 && huff_bits(197) == 23);
        assert(huff_code(191) == 8388593 && huff_code(197) == 8388594);
        assert(code_end(191) <= code_start(197)) by (nonlinear_arith)
            requires
                huff_bits(191) == 23,
                huff_bits(197) == 23,
                huff_code(191) == 8388593,
                huff_code(197) == 8388594,
                pow2(9) == 512,
                pow2(9) == 512,
        ;
    } else if j == 171 {
        assert(code_order(171) == 197 && code_order(172) == 231);
        assert(huff_bits(197) == 23 && huff_bits(231) == 23);
        assert(huff_code(197) == 8388594 && huff_code(231) == 8388595);
        assert(code_end(197) <= code_start(231)) by (nonlinear_arith)
            requires
                huff_bits(197) == 23,
                huff_bits(231) == 23,
                huff_code(197) == 8388594,
                huff_code(231) == 8388595,
                pow2(9) == 512,
                pow2(9) == 512,
        ;
    } else if j == 172 {
        assert(code_order(172) == 231 && code_order(173) == 239);
        assert(huff_bits(231) == 23 && huff_bits(239) == 23);
        assert(huff_code(231) == 8388595 && huff_code(239) == 8388596);
        assert(code_end(231) <= code_start(239)) by (nonlinear_arith)
            requires
                huff_bits(231) == 23,
                huff_bits(239) == 23,
                huff_code(231) == 8388595,
                huff_code(239) == 8388596,
                pow2(9) == 512,
                pow2(9) == 512,
        ;
    } else if j == 173 {
        assert(code_order(173) == 239 && code_order(174) == 9);
        assert(huff_bits(239) == 23 && huff_bits(9) == 24);
        assert(huff_code(239) == 8388596 && huff_code(9) == 16777194);
        assert(code_end(239) <= code_start(9)) by (nonlinear_arith)
            requires
                huff_bits(239) == 23,
                huff_bits(9) == 24,
                huff_code(239) == 8388596,
                huff_code(9) == 16777194,
                pow2(9) == 512,
                pow2(8) == 256,
        ;
    } else if j == 174 {
        assert(code_order(174) == 9 && code_order(175) == 142);
        assert(huff_bits(9) == 24 && huff_bits(142) == 24);
        assert(huff_code(9) == 16777194 && huff_code(142) == 16777195);
        assert(code_end(9) <= code_start(142)) by (nonlinear_arith)
            requires
                huff_bits(9) == 24,
                huff_bits(142) == 24,
                huff_code(9) == 16777194,
                huff_code(142) == 16777195,
                pow2(8) == 256,
                pow2(8) == 256,
        ;
    } else if j == 175 {
        assert(code_order(175) == 142 && code_order(176) == 144);
        assert(huff_bits(142) == 24 && huff_bits(144) == 24);
        assert(huff_code(142) == 16777195 && huff_code(144) == 16777196);
        assert(code_end(142) <= code_start(144)) by (nonlinear_arith)
            requires
                huff_bits(142) == 24,
                huff_bits(144) == 24,
                huff_code(142) == 16777195,
                huff_code(144) == 16777196,
                pow2(8) == 256,
                pow2(8) == 256,
        ;
    } else {
    }
}

proof fn lemma_adjacent_11(j: int)
    requires
        176 <= j < 192,
    ensures
        code_end(code_order(j)) <= code_start(code_order(j + 1)),
{
    lemma2_to64();
    if j == 176 {
        assert(code_order(176) == 144 && code_order(177) == 145);
        assert(huff_bits(144) == 24 && huff_bits(145) == 24);
        assert(huff_code(144) == 16777196 && huff_code(145) == 16777197);
        assert(code_end(144) <= code_start(145)) by (nonlinear_arith)
            requires
                huff_bits(144) == 24,
                huff_bits(145) == 24,
                huff_code(144) == 16777196,
                huff_code(145) == 16777197,
                pow2(8) == 256,
                pow2(8) == 256,
        ;
    } else if j == 177 {
        assert(code_order(177) == 145 && code_order(178) == 148);
        assert(huff_bits(145) == 24 && huff_bits(148) == 24);
        assert(huff_code(145) == 16777197 && huff_code(148) == 16777198);
        assert(code_end(145) <= code_start(148)) by (nonlinear_arith)
            requires
                huff_bits(145) == 24,
                huff_bits(148) == 24,
                huff_code(145) == 16777197,
                huff_code(148) == 16777198,
                pow2(8) == 256,
                pow2(8) == 256,
        ;
    } else if j == 178 {
        assert(code_order(178) == 148 && code_order(179) == 159);
        assert(huff_bits(148) == 24 && huff_bits(159) == 24);
        assert(huff_code(148) == 16777198 && huff_code(159) == 16777199);
        assert(code_end(148) <= code_start(159)) by (nonlinear_arith)
            requires
                huff_bits(148) == 24,
                huff_bits(159) == 24,
                huff_code(148) == 16777198,
                huff_code(159) == 16777199,
                pow2(8) == 256,
                pow2(8) == 256,
        ;
    } else if j == 179 {
        assert(code_order(179) == 159 && code_order(180) == 171);
        assert(huff_bits(159) == 24 && huff_bits(171) == 24);
        assert(huff_code(159) == 16777199 && huff_code(171) == 16777200);
        assert(code_end(159) <= code_start(171)) by (nonlinear_arith)
            requires
                huff_bits(159) == 24,
                huff_bits(171) == 24,
                huff_code(159) == 16777199,
                huff_code(171) == 16777200,
                pow2(8) == 256,
                pow2(8) == 256,
        ;
    } else if j == 180 {
        assert(code_order(180) == 171 && code_order(181) == 206);
        assert(huff_bits(171) == 24 && huff_bits(206) == 24);
        assert(huff_code(171) == 16777200 && huff_code(206) == 16777201);
        assert(code_end(171) <= code_start(206)) by (nonlinear_arith)
            requires
                huff_bits(171) == 24,
                huff_bits(206) == 24,
                huff_code(171) == 16777200,
                huff_code(206) == 16777201,
                pow2(8) == 256,
                pow2(8) == 256,
        ;
    } else if j == 181 {
        assert(code_order(181) == 206 && code_order(182) == 215);
        assert(huff_bits(206) == 24 && huff_bits(215) == 24);
        assert(huff_code(206) == 16777201 && huff_code(215) == 16777202);
        assert(code_end(206) <= code_start(215)) by (nonlinear_arith)
            requires
                huff_bits(206) == 24,
                huff_bits(215) == 24,
                huff_code(206) == 16777201,
                huff_code(215) == 16777202,
                pow2(8) == 256,
                pow2(8) == 256,
        ;
    } else if j == 182 {
        assert(code_order(182) == 215 && code_order(183) == 225);
        assert(huff_bits(215) == 24 && huff_bits(225) == 24);
        assert(huff_code(215) == 16777202 && huff_code(225) == 16777203);
        assert(code_end(215) <= code_start(225)) by (nonlinear_arith)
            requires
                huff_bits(215) == 24,
                huff_bits(225) == 24,
                huff_code(215) == 16777202,
                huff_code(225) == 16777203,
                pow2(8) == 256,
                pow2(8) == 256,
        ;
    } else if j == 183 {
        assert(code_order(183) == 225 && code_order(184) == 236);
        assert(huff_bits(225) == 24 && huff_bits(236) == 24);
        assert(huff_code(225) == 16777203 && huff_code(236) == 16777204);
        assert(code_end(225) <= code_start(236)) by (nonlinear_arith)
            requires
                huff_bits(225) == 24,
                huff_bits(236) == 24,
                huff_code(225) == 16777203,
                huff_code(236) == 16777204,
                pow2(8) == 256,
                pow2(8) == 256,
        ;
    } else if j == 184 {
        assert(code_order(184) == 236 && code_order(185) == 237);
        assert(huff_bits(236) == 24 && huff_bits(237) == 24);
        assert(huff_code(236) == 16777204 && huff_code(237) == 16777205);
        assert(code_end(236) <= code_start(237)) by (nonlinear_arith)
            requires
                huff_bits(236) == 24,
                huff_bits(237) == 24,
                huff_code(236) == 16777204,
                huff_code(237) == 16777205,
                pow2(8) == 256,
                pow2(8) == 256,
        ;
    } else if j == 185 {
        assert(code_order(185) == 237 && code_order(186) == 199);
        assert(huff_bits(237) == 24 && huff_bits(199) == 25);
        assert(huff_code(237) == 16777205 && huff_code(199) == 33554412);
        assert(code_end(237) <= code_start(199)) by (nonlinear_arith)
            requires
                huff_bits(237) == 24,
                huff_bits(199) == 25,
                huff_code(237) == 16777205,
                huff_code(199) == 33554412,
                pow2(8) == 256,
                pow2(7) == 128,
        ;
    } else if j == 186 {
        assert(code_order(186) == 199 && code_order(187) == 207);
        assert(huff_bits(199) == 25 && huff_bits(207) == 25);
        assert(huff_code(199) == 33554412 && huff_code(207) == 33554413);
        assert(code_end(199) <= code_start(207)) by (nonlinear_arith)
            requires
                huff_bits(199) == 25,
                huff_bits(207) == 25,
                huff_code(199) == 33554412,
                huff_code(207) == 33554413,
                pow2(7) == 128,
                pow2(7) == 128,
        ;
    } else if j == 187 {
        assert(code_order(187) == 207 && code_order(188) == 234);
        assert(huff_bits(207) == 25 && huff_bits(234) == 25);
        assert(huff_code(207) == 33554413 && huff_code(234) == 33554414);
        assert(code_end(207) <= code_start(234)) by (nonlinear_arith)
            requires
                huff_bits(207) == 25,
                huff_bits(234) == 25,
                huff_code(207) == 33554413,
                huff_code(234) == 33554414,
                pow2(7) == 128,
                pow2(7) == 128,
        ;
    } else if j == 188 {
        assert(code_order(188) == 234 && code_order(189) == 235);
        assert(huff_bits(234) == 25 && huff_bits(235) == 25);
        assert(huff_code(234) == 33554414 && huff_code(235) == 33554415);
        assert(code_end(234) <= code_start(235)) by (nonlinear_arith)
            requires
                huff_bits(234) == 25,
                huff_bits(235) == 25,
                huff_code(234) == 33554414,
                huff_code(235) == 33554415,
                pow2(7) == 128,
                pow2(7) == 128,
        ;
    } else if j == 189 {
        assert(code_order(189) == 235 && code_order(190) == 192);
        assert(huff_bits(235) == 25 && huff_bits(192) == 26);
        assert(huff_code(235) == 33554415 && huff_code(192) == 67108832);
        assert(code_end(235) <= code_start(192)) by (nonlinear_arith)
            requires
                huff_bits(235) == 25,
                huff_bits(192) == 26,
                huff_code(235) == 33554415,
                huff_code(192) == 67108832,
                pow2(7) == 128,
                pow2(6) == 64,
        ;
    } else if j == 190 {
        assert(code_order(190) == 192 && code_order(191) == 193);
        assert(huff_bits(192) == 26 && huff_bits(193) == 26);
        assert(huff_code(192) == 67108832 && huff_code(193) == 67108833);
        assert(code_end(192) <= code_start(193)) by (nonlinear_arith)
            requires
                huff_bits(192) == 26,
                huff_bits(193) == 26,
                huff_code(192) == 67108832,
                huff_code(193) == 67108833,
                pow2(6) == 64,
                pow2(6) == 64,
        ;
    } else if j == 191 {
        assert(code_order(191) == 193 && code_order(192) == 200);
        assert(huff_bits(193) == 26 && huff_bits(200) == 26);
        assert(huff_code(193) == 67108833 && huff_code(200) == 67108834);
        assert(code_end(193) <= code_start(200)) by (nonlinear_arith)
            requires
                huff_bits(193) == 26,
                huff_bits(200) == 26,
                huff_code(193) == 67108833,
                huff_code(200) == 67108834,
                pow2(6) == 64,
                pow2(6) == 64,
        ;
    } else {
    }
}

proof fn lemma_adjacent_12(j: int)
    requires
        192 <= j < 208,
    ensures
        code_end(code_order(j)) <= code_start(code_order(j + 1)),
{
    lemma2_to64();
    if j == 192 {
        assert(code_order(192) == 200 && code_order(193) == 201);
        assert(huff_bits(200) == 26 && huff_bits(201) == 26);
        assert(huff_code(200) == 67108834 && huff_code(201) == 67108835);
        assert(code_end(200) <= code_start(201)) by (nonlinear_arith)
            requires
                huff_bits(200) == 26,
                huff_bits(201) == 26,
                huff_code(200) == 67108834,
                huff_code(201) == 67108835,
                pow2(6) == 64,
                pow2(6) == 64,
        ;
    } else if j == 193 {
        assert(code_order(193) == 201 && code_order(194) == 202);
        assert(huff_bits(201) == 26 && huff_bits(202) == 26);
        assert(huff_code(201) == 67108835 && huff_code(202) == 67108836);
        assert(code_end(201) <= code_start(202)) by (nonlinear_arith)
            requires
                huff_bits(201) == 26,
                huff_bits(202) == 26,
                huff_code(201) == 67108835,
                huff_code(202) == 67108836,
                pow2(6) == 64,
                pow2(6) == 64,
        ;
    } else if j == 194 {
        assert(code_order(194) == 202 && code_order(195) == 205);
        assert(huff_bits(202) == 26 && huff_bits(205) == 26);
        assert(huff_code(202) == 67108836 && huff_code(205) == 67108837);
        assert(code_end(202) <= code_start(205)) by (nonlinear_arith)
            requires
                huff_bits(202) == 26,
                huff_bits(205) == 26,
                huff_code(202) == 67108836,
                huff_code(205) == 67108837,
                pow2(6) == 64,
                pow2(6) == 64,
        ;
    } else if j == 195 {
        assert(code_order(195) == 205 && code_order(196) == 210);
        assert(huff_bits(205) == 26 && huff_bits(210) == 26);
        assert(huff_code(205) == 67108837 && huff_code(210) == 67108838);
        assert(code_end(205) <= code_start(210)) by (nonlinear_arith)
            requires
                huff_bits(205) == 26,
                huff_bits(210) == 26,
                huff_code(205) == 67108837,
                huff_code(210) == 67108838,
                pow2(6) == 64,
                pow2(6) == 64,
        ;
    } else if j == 196 {
        assert(code_order(196) == 210 && code_order(197) == 213);
        assert(huff_bits(210) == 26 && huff_bits(213) == 26);
        assert(huff_code(210) == 67108838 && huff_code(213) == 67108839);
        assert(code_end(210) <= code_start(213)) by (nonlinear_arith)
            requires
                huff_bits(210) == 26,
                huff_bits(213) == 26,
                huff_code(210) == 67108838,
                huff_code(213) == 67108839,
                pow2(6) == 64,
                pow2(6) == 64,
        ;
    } else if j == 197 {
        assert(code_order(197) == 213 && code_order(198) == 218);
        assert(huff_bits(213) == 26 && huff_bits(218) == 26);
        assert(huff_code(213) == 67108839 && huff_code(218) == 67108840);
        assert(code_end(213) <= code_start(218)) by (nonlinear_arith)
            requires
                huff_bits(213) == 26,
                huff_bits(218) == 26,
                huff_code(213) == 67108839,
                huff_code(218) == 67108840,
                pow2(6) == 64,
                pow2(6) == 64,
        ;
    } else if j == 198 {
        assert(code_order(198) == 218 && code_order(199) == 219);
        assert(huff_bits(218) == 26 && huff_bits(219) == 26);
        assert(huff_code(218) == 67108840 && huff_code(219) == 67108841);
        assert(code_end(218) <= code_start(219)) by (nonlinear_arith)
            requires
                huff_bits(218) == 26,
                huff_bits(219) == 26,
                huff_code(218) == 67108840,
                huff_code(219) == 67108841,
                pow2(6) == 64,
                pow2(6) == 64,
        ;
    } else if j == 199 {
        assert(code_order(199) == 219 && code_order(200) == 238);
        assert(huff_bits(219) == 26 && huff_bits(238) == 26);
        assert(huff_code(219) == 67108841 && huff_code(238) == 67108842);
        assert(code_end(219) <= code_start(238)) by (nonlinear_arith)
            requires
                huff_bits(219) == 26,
                huff_bits(238) == 26,
                huff_code(219) == 67108841,
                huff_code(238) == 67108842,
                pow2(6) == 64,
                pow2(6) == 64,
        ;
    } else if j == 200 {
        assert(code_order(200) == 238 && code_order(201) == 240);
        assert(huff_bits(238) == 26 && huff_bits(240) == 26);
        assert(huff_code(238) == 67108842 && huff_code(240) == 67108843);
        assert(code_end(238) <= code_start(240)) by (nonlinear_arith)
            requires
                huff_bits(238) == 26,
                huff_bits(240) == 26,
                huff_code(238) == 67108842,
                huff_code(240) == 67108843,
                pow2(6) == 64,
                pow2(6) == 64,
        ;
    } else if j == 201 {
        assert(code_order(201) == 240 && code_order(202) == 242);
        assert(huff_bits(240) == 26 && huff_bits(242) == 26);
        assert(huff_code(240) == 67108843 && huff_code(242) == 67108844);
        assert(code_end(240) <= code_start(242)) by (nonlinear_arith)
            requires
                huff_bits(240) == 26,
                huff_bits(242) == 26,
                huff_code(240) == 67108843,
                huff_code(242) == 67108844,
                pow2(6) == 64,
                pow2(6) == 64,
        ;
    } else if j == 202 {
        assert(code_order(202) == 242 && code_order(203) == 243);
        assert(huff_bits(242) == 26 && huff_bits(243) == 26);
        assert(huff_code(242) == 67108844 && huff_code(243) == 67108845);
        assert(code_end(242) <= code_start(243)) by (nonlinear_arith)
            requires
                huff_bits(242) == 26,
                huff_bits(243) == 26,
                huff_code(242) == 67108844,
                huff_code(243) == 67108845,
                pow2(6) == 64,
                pow2(6) == 64,
        ;
    } else if j == 203 {
        assert(code_order(203) == 243 && code_order(204) == 255);
        assert(huff_bits(243) == 26 && huff_bits(255) == 26);
        assert(huff_code(243) == 67108845 && huff_code(255) == 67108846);
        assert(code_end(243) <= code_start(255)) by (nonlinear_arith)
            requires
                huff_bits(243) == 26,
                huff_bits(255) == 26,
                huff_code(243) == 67108845,
                huff_code(255) == 67108846,
                pow2(6) == 64,
                pow2(6) == 64,
        ;
    } else if j == 204 {
        assert(code_order(204) == 255 && code_order(205) == 203);
        assert(huff_bits(255) == 26 && huff_bits(203) == 27);
        assert(huff_code(255) == 67108846 && huff_code(203) == 134217694);
        assert(code_end(255) <= code_start(203)) by (nonlinear_arith)
            requires
                huff_bits(255) == 26,
                huff_bits(203) == 27,
                huff_code(255) == 67108846,
                huff_code(203) == 134217694,
                pow2(6) == 64,
                pow2(5) == 32,
        ;
    } else if j == 205 {
        assert(code_order(205) == 203 && code_order(206) == 204);
        assert(huff_bits(203) == 27 && huff_bits(204) == 27);
        assert(huff_code(203) == 134217694 && huff_code(204) == 134217695);
        assert(code_end(203) <= code_start(204)) by (nonlinear_arith)
            requires
                huff_bits(203) == 27,
                huff_bits(204) == 27,
                huff_code(203) == 134217694,
                huff_code(204) == 134217695,
                pow2(5) == 32,
                pow2(5) == 32,
        ;
    } else if j == 206 {
        assert(code_order(206) == 204 && code_order(207) == 211);
        assert(huff_bits(204) == 27 && huff_bits(211) == 27);
        assert(huff_code(204) == 134217695 && huff_code(211) == 134217696);
        assert(code_end(204) <= code_start(211)) by (nonlinear_arith)
            requires
                huff_bits(204) == 27,
                huff_bits(211) == 27,
                huff_code(204) == 134217695,
                huff_code(211) == 134217696,
                pow2(5) == 32,
                pow2(5) == 32,
        ;
    } else if j == 207 {
        assert(code_order(207) == 211 && code_order(208) == 212);
        assert(huff_bits(211) == 27 && huff_bits(212) == 27);
        assert(huff_code(211) == 134217696 && huff_code(212) == 134217697);
        assert(code_end(211) <= code_start(212)) by (nonlinear_arith)
            requires
                huff_bits(211) == 27,
                huff_bits(212) == 27,
                huff_code(211) == 134217696,
                huff_code(212) == 134217697,
                pow2(5) == 32,
                pow2(5) == 32,
        ;
    } else {
    }
}

proof fn lemma_adjacent_13(j: int)
    requires
        208 <= j < 224,
    ensures
        code_end(code_order(j)) <= code_start(code_order(j + 1)),
{
    lemma2_to64();
    if j == 208 {
        assert(code_order(208) == 212 && code_order(209) == 214);
        assert(huff_bits(212) == 27 && huff_bits(214) == 27);
        assert(huff_code(212) == 134217697 && huff_code(214) == 134217698);
        assert(code_end(212) <= code_start(214)) by (nonlinear_arith)
            requires
                huff_bits(212) == 27,
                huff_bits(214) == 27,
                huff_code(212) == 134217697,
                huff_code(214) == 134217698,
                pow2(5) == 32,
                pow2(5) == 32,
        ;
    } else if j == 209 {
        assert(code_order(209) == 214 && code_order(210) == 221);
        assert(huff_bits(214) == 27 && huff_bits(221) == 27);
        assert(huff_code(214) == 134217698 && huff_code(221) == 134217699);
        assert(code_end(214) <= code_start(221)) by (nonlinear_arith)
            requires
                huff_bits(214) == 27,
                huff_bits(221) == 27,
                huff_code(214) == 134217698,
                huff_code(221) == 134217699,
                pow2(5) == 32,
                pow2(5) == 32,
        ;
    } else if j == 210 {
        assert(code_order(210) == 221 && code_order(211) == 222);
        assert(huff_bits(221) == 27 && huff_bits(222) == 27);
        assert(huff_code(221) == 134217699 && huff_code(222) == 134217700);
        assert(code_end(221) <= code_start(222)) by (nonlinear_arith)
            requires
                huff_bits(221) == 27,
                huff_bits(222) == 27,
                huff_code(221) == 134217699,
                huff_code(222) == 134217700,
                pow2(5) == 32,
                pow2(5) == 32,
        ;
    } else if j == 211 {
        assert(code_order(211) == 222 && code_order(212) == 223);
        assert(huff_bits(222) == 27 && huff_bits(223) == 27);
        assert(huff_code(222) == 134217700 && huff_code(223) == 134217701);
        assert(code_end(222) <= code_start(223)) by (nonlinear_arith)
            requires
                huff_bits(222) == 27,
                huff_bits(223) == 27,
                huff_code(222) == 134217700,
                huff_code(223) == 134217701,
                pow2(5) == 32,
                pow2(5) == 32,
        ;
    } else if j == 212 {
        assert(code_order(212) == 223 && code_order(213) == 241);
        assert(huff_bits(223) == 27 && huff_bits(241) == 27);
        assert(huff_code(223) == 134217701 && huff_code(241) == 134217702);
        assert(code_end(223) <= code_start(241)) by (nonlinear_arith)
            requires
                huff_bits(223) == 27,
                huff_bits(241) == 27,
                huff_code(223) == 134217701,
                huff_code(241) == 134217702,
                pow2(5) == 32,
                pow2(5) == 32,
        ;
    } else if j == 213 {
        assert(code_order(213) == 241 && code_order(214) == 244);
        assert(huff_bits(241) == 27 && huff_bits(244) == 27);
        assert(huff_code(241) == 134217702 && huff_code(244) == 134217703);
        assert(code_end(241) <= code_start(244)) by (nonlinear_arith)
            requires
                huff_bits(241) == 27,
                huff_bits(244) == 27,
                huff_code(241) == 134217702,
                huff_code(244) == 134217703,
                pow2(5) == 32,
                pow2(5) == 32,
        ;
    } else if j == 214 {
        assert(code_order(214) == 244 && code_order(215) == 245);
        assert(huff_bits(244) == 27 && huff_bits(245) == 27);
        assert(huff_code(244) == 134217703 && huff_code(245) == 134217704);
        assert(code_end(244) <= code_start(245)) by (nonlinear_arith)
            requires
                huff_bits(244) == 27,
                huff_bits(245) == 27,
                huff_code(244) == 134217703,
                huff_code(245) == 134217704,
                pow2(5) == 32,
                pow2(5) == 32,
        ;
    } else if j == 215 {
        assert(code_order(215) == 245 && code_order(216) == 246);
        assert(huff_bits(245) == 27 && huff_bits(246) == 27);
        assert(huff_code(245) == 134217704 && huff_code(246) == 134217705);
        assert(code_end(245) <= code_start(246)) by (nonlinear_arith)
            requires
                huff_bits(245) == 27,
                huff_bits(246) == 27,
                huff_code(245) == 134217704,
                huff_code(246) == 134217705,
                pow2(5) == 32,
                pow2(5) == 32,
        ;
    } else if j == 216 {
        assert(code_order(216) == 246 && code_order(217) == 247);
        assert(huff_bits(246) == 27 && huff_bits(247) == 27);
        assert(huff_code(246) == 134217705 && huff_code(247) == 134217706);
        assert(code_end(246) <= code_start(247)) by (nonlinear_arith)
            requires
                huff_bits(246) == 27,
                huff_bits(247) == 27,
                huff_code(246) == 134217705,
                huff_code(247) == 134217706,
                pow2(5) == 32,
                pow2(5) == 32,
        ;
    } else if j == 217 {
        assert(code_order(217) == 247 && code_order(218) == 248);
        assert(huff_bits(247) == 27 && huff_bits(248) == 27);
        assert(huff_code(247) == 134217706 && huff_code(248) == 134217707);
        assert(code_end(247) <= code_start(248)) by (nonlinear_arith)
            requires
                huff_bits(247) == 27,
                huff_bits(248) == 27,
                huff_code(247) == 134217706,
                huff_code(248) == 134217707,
                pow2(5) == 32,
                pow2(5) == 32,
        ;
    } else if j == 218 {
        assert(code_order(218) == 248 && code_order(219) == 250);
        assert(huff_bits(248) == 27 && huff_bits(250) == 27);
        assert(huff_code(248) == 134217707 && huff_code(250) == 134217708);
        assert(code_end(248) <= code_start(250)) by (nonlinear_arith)
            requires
                huff_bits(248) == 27,
                huff_bits(250) == 27,
                huff_code(248) == 134217707,
                huff_code(250) == 134217708,
                pow2(5) == 32,
                pow2(5) == 32,
        ;
    } else if j == 219 {
        assert(code_order(219) == 250 && code_order(220) == 251);
        assert(huff_bits(250) == 27 && huff_bits(251) == 27);
        assert(huff_code(250) == 134217708 && huff_code(251) == 134217709);
        assert(code_end(250) <= code_start(251)) by (nonlinear_arith)
            requires
                huff_bits(250) == 27,
                huff_bits(251) == 27,
                huff_code(250) == 134217708,
                huff_code(251) == 134217709,
                pow2(5) == 32,
                pow2(5) == 32,
        ;
    } else if j == 220 {
        assert(code_order(220) == 251 && code_order(221) == 252);
        assert(huff_bits(251) == 27 && huff_bits(252) == 27);
        assert(huff_code(251) == 134217709 && huff_code(252) == 134217710);
        assert(code_end(251) <= code_start(252)) by (nonlinear_arith)
            requires
                huff_bits(251) == 27,
                huff_bits(252) == 27,
                huff_code(251) == 134217709,
                huff_code(252) == 134217710,
                pow2(5) == 32,
                pow2(5) == 32,
        ;
    } else if j == 221 {
        assert(code_order(221) == 252 && code_order(222) == 253);
        assert(huff_bits(252) == 27 && huff_bits(253) == 27);
        assert(huff_code(252) == 134217710 && huff_code(253) == 134217711);
        assert(code_end(252) <= code_start(253)) by (nonlinear_arith)
            requires
                huff_bits(252) == 27,
                huff_bits(253) == 27,
                huff_code(252) == 134217710,
                huff_code(253) == 134217711,
                pow2(5) == 32,
                pow2(5) == 32,
        ;
    } else if j == 222 {
        assert(code_order(222) == 253 && code_order(223) == 254);
        assert(huff_bits(253) == 27 && huff_bits(254) == 27);
        assert(huff_code(253) == 134217711 && huff_code(254) == 134217712);
        assert(code_end(253) <= code_start(254)) by (nonlinear_arith)
            requires
                huff_bits(253) == 27,
                huff_bits(254) == 27,
                huff_code(253) == 134217711,
                huff_code(254) == 134217712,
                pow2(5) == 32,
                pow2(5) == 32,
        ;
    } else if j == 223 {
        assert(code_order(223) == 254 && code_order(224) == 2);
        assert(huff_bits(254) == 27 && huff_bits(2) == 28);
        assert(huff_code(254) == 134217712 && huff_code(2) == 268435426);
        assert(code_end(254) <= code_start(2)) by (nonlinear_arith)
            requires
                huff_bits(254) == 27,
                huff_bits(2) == 28,
                huff_code(254) == 134217712,
                huff_code(2) == 268435426,
                pow2(5) == 32,
                pow2(4) == 16,
        ;
    } else {
    }
}

proof fn lemma_adjacent_14(j: int)
    requires
        224 <= j < 240,
    ensures
        code_end(code_order(j)) <= code_start(code_order(j + 1)),
{
    lemma2_to64();
    if j == 224 {
        assert(code_order(224) == 2 && code_order(225) == 3);
        assert(huff_bits(2) == 28 && huff_bits(3) == 28);
        assert(huff_code(2) == 268435426 && huff_code(3) == 268435427);
        assert(code_end(2) <= code_start(3)) by (nonlinear_arith)
            requires
                huff_bits(2) == 28,
                huff_bits(3) == 28,
                huff_code(2) == 268435426,
                huff_code(3) == 268435427,
                pow2(4) == 16,
                pow2(4) == 16,
        ;
    } else if j == 225 {
        assert(code_order(225) == 3 && code_order(226) == 4);
        assert(huff_bits(3) == 28 && huff_bits(4) == 28);
        assert(huff_code(3) == 268435427 && huff_code(4) == 268435428);
        assert(code_end(3) <= code_start(4)) by (nonlinear_arith)
            requires
                huff_bits(3) == 28,
                huff_bits(4) == 28,
                huff_code(3) == 268435427,
                huff_code(4) == 268435428,
                pow2(4) == 16,
                pow2(4) == 16,
        ;
    } else if j == 226 {
        assert(code_order(226) == 4 && code_order(227) == 5);
        assert(huff_bits(4) == 28 && huff_bits(5) == 28);
        assert(huff_code(4) == 268435428 && huff_code(5) == 268435429);
        assert(code_end(4) <= code_start(5)) by (nonlinear_arith)
            requires
                huff_bits(4) == 28,
                huff_bits(5) == 28,
                huff_code(4) == 268435428,
                huff_code(5) == 268435429,
                pow2(4) == 16,
                pow2(4) == 16,
        ;
    } else if j == 227 {
        assert(code_order(227) == 5 && code_order(228) == 6);
        assert(huff_bits(5) == 28 && huff_bits(6) == 28);
        assert(huff_code(5) == 268435429 && huff_code(6) == 268435430);
        assert(code_end(5) <= code_start(6)) by (nonlinear_arith)
            requires
                huff_bits(5) == 28,
                huff_bits(6) == 28,
                huff_code(5) == 268435429,
                huff_code(6) == 268435430,
                pow2(4) == 16,
                pow2(4) == 16,
        ;
    } else if j == 228 {
        assert(code_order(228) == 6 && code_order(229) == 7);
        assert(huff_bits(6) == 28 && huff_bits(7) == 28);
        assert(huff_code(6) == 268435430 && huff_code(7) == 268435431);
        assert(code_end(6) <= code_start(7)) by (nonlinear_arith)
            requires
                huff_bits(6) == 28,
                huff_bits(7) == 28,
                huff_code(6) == 268435430,
                huff_code(7) == 268435431,
                pow2(4) == 16,
                pow2(4) == 16,
        ;
    } else if j == 229 {
        assert(code_order(229) == 7 && code_order(230) == 8);
        assert(huff_bits(7) == 28 && huff_bits(8) == 28);
        assert(huff_code(7) == 268435431 && huff_code(8) == 268435432);
        assert(code_end(7) <= code_start(8)) by (nonlinear_arith)
            requires
                huff_bits(7) == 28,
                huff_bits(8) == 28,
                huff_code(7) == 268435431,
                huff_code(8) == 268435432,
                pow2(4) == 16,
                pow2(4) == 16,
        ;
    } else if j == 230 {
        assert(code_order(230) == 8 && code_order(231) == 11);
        assert(huff_bits(8) == 28 && huff_bits(11) == 28);
        assert(huff_code(8) == 268435432 && huff_code(11) == 268435433);
        assert(code_end(8) <= code_start(11)) by (nonlinear_arith)
            requires
                huff_bits(8) == 28,
                huff_bits(11) == 28,
                huff_code(8) == 268435432,
                huff_code(11) == 268435433,
                pow2(4) == 16,
                pow2(4) == 16,
        ;
    } else if j == 231 {
        assert(code_order(231) == 11 && code_order(232) == 12);
        assert(huff_bits(11) == 28 && huff_bits(12) == 28);
        assert(huff_code(11) == 268435433 && huff_code(12) == 268435434);
        assert(code_end(11) <= code_start(12)) by (nonlinear_arith)
            requires
                huff_bits(11) == 28,
                huff_bits(12) == 28,
                huff_code(11) == 268435433,
                huff_code(12) == 268435434,
                pow2(4) == 16,
                pow2(4) == 16,
        ;
    } else if j == 232 {
        assert(code_order(232) == 12 && code_order(233) == 14);
        assert(huff_bits(12) == 28 && huff_bits(14) == 28);
        assert(huff_code(12) == 268435434 && huff_code(14) == 268435435);
        assert(code_end(12) <= code_start(14)) by (nonlinear_arith)
            requires
                huff_bits(12) == 28,
                huff_bits(14) == 28,
                huff_code(12) == 268435434,
                huff_code(14) == 268435435,
                pow2(4) == 16,
                pow2(4) == 16,
        ;
    } else if j == 233 {
        assert(code_order(233) == 14 && code_order(234) == 15);
        assert(huff_bits(14) == 28 && huff_bits(15) == 28);
        assert(huff_code(14) == 268435435 && huff_code(15) == 268435436);
        assert(code_end(14) <= code_start(15)) by (nonlinear_arith)
            requires
                huff_bits(14) == 28,
                huff_bits(15) == 28,
                huff_code(14) == 268435435,
                huff_code(15) == 268435436,
                pow2(4) == 16,
                pow2(4) == 16,
        ;
    } else if j == 234 {
        assert(code_order(234) == 15 && code_order(235) == 16);
        assert(huff_bits(15) == 28 && huff_bits(16) == 28);
        assert(huff_code(15) == 268435436 && huff_code(16) == 268435437);
        assert(code_end(15) <= code_start(16)) by (nonlinear_arith)
            requires
                huff_bits(15) == 28,
                huff_bits(16) == 28,
                huff_code(15) == 268435436,
                huff_code(16) == 268435437,
                pow2(4) == 16,
                pow2(4) == 16,
        ;
    } else if j == 235 {
        assert(code_order(235) == 16 && code_order(236) == 17);
        assert(huff_bits(16) == 28 && huff_bits(17) == 28);
        assert(huff_code(16) == 268435437 && huff_code(17) == 268435438);
        assert(code_end(16) <= code_start(17)) by (nonlinear_arith)
            requires
                huff_bits(16) == 28,
                huff_bits(17) == 28,
                huff_code(16) == 268435437,
                huff_code(17) == 268435438,
                pow2(4) == 16,
                pow2(4) == 16,
        ;
    } else if j == 236 {
        assert(code_order(236) == 17 && code_order(237) == 18);
        assert(huff_bits(17) == 28 && huff_bits(18) == 28);
        assert(huff_code(17) == 268435438 && huff_code(18) == 268435439);
        assert(code_end(17) <= code_start(18)) by (nonlinear_arith)
            requires
                huff_bits(17) == 28,
                huff_bits(18) == 28,
                huff_code(17) == 268435438,
                huff_code(18) == 268435439,
                pow2(4) == 16,
                pow2(4) == 16,
        ;
    } else if j == 237 {
        assert(code_order(237) == 18 && code_order(238) == 19);
        assert(huff_bits(18) == 28 && huff_bits(19) == 28);
        assert(huff_code(18) == 268435439 && huff_code(19) == 268435440);
        assert(code_end(18) <= code_start(19)) by (nonlinear_arith)
            requires
                huff_bits(18) == 28,
                huff_bits(19) == 28,
                huff_code(18) == 268435439,
                huff_code(19) == 268435440,
                pow2(4) == 16,
                pow2(4) == 16,
        ;
    } else if j == 238 {
        assert(code_order(238) == 19 && code_order(239) == 20);
        assert(huff_bits(19) == 28 && huff_bits(20) == 28);
        assert(huff_code(19) == 268435440 && huff_code(20) == 268435441);
        assert(code_end(19) <= code_start(20)) by (nonlinear_arith)
            requires
                huff_bits(19) == 28,
                huff_bits(20) == 28,
                huff_code(19) == 268435440,
                huff_code(20) == 268435441,
                pow2(4) == 16,
                pow2(4) == 16,
        ;
    } else if j == 239 {
        assert(code_order(239) == 20 && code_order(240) == 21);
        assert(huff_bits(20) == 28 && huff_bits(21) == 28);
        assert(huff_code(20) == 268435441 && huff_code(21) == 268435442);
        assert(code_end(20) <= code_start(21)) by (nonlinear_arith)
            requires
                huff_bits(20) == 28,
                huff_bits(21) == 28,
                huff_code(20) == 268435441,
                huff_code(21) == 268435442,
                pow2(4) == 16,
                pow2(4) == 16,
        ;
    } else {
    }
}

proof fn lemma_adjacent_15(j: int)
    requires
        240 <= j < 256,
    ensures
        code_end(code_order(j)) <= code_start(code_order(j + 1)),
{
    lemma2_to64();
    if j == 240 {
        assert(code_order(240) == 21 && code_order(241) == 23);
        assert(huff_bits(21) == 28 && huff_bits(23) == 28);
        assert(huff_code(21) == 268435442 && huff_code(23) == 268435443);
        assert(code_end(21) <= code_start(23)) by (nonlinear_arith)
            requires
                huff_bits(21) == 28,
                huff_bits(23) == 28,
                huff_code(21) == 268435442,
                huff_code(23) == 268435443,
                pow2(4) == 16,
                pow2(4) == 16,
        ;
    } else if j == 241 {
        assert(code_order(241) == 23 && code_order(242) == 24);
        assert(huff_bits(23) == 28 && huff_bits(24) == 28);
        assert(huff_code(23) == 268435443 && huff_code(24) == 268435444);
        assert(code_end(23) <= code_start(24)) by (nonlinear_arith)
            requires
                huff_bits(23) == 28,
                huff_bits(24) == 28,
                huff_code(23) == 268435443,
                huff_code(24) == 268435444,
                pow2(4) == 16,
                pow2(4) == 16,
        ;
    } else if j == 242 {
        assert(code_order(242) == 24 && code_order(243) == 25);
        assert(huff_bits(24) == 28 && huff_bits(25) == 28);
        assert(huff_code(24) == 268435444 && huff_code(25) == 268435445);
        assert(code_end(24) <= code_start(25)) by (nonlinear_arith)
            requires
                huff_bits(24) == 28,
                huff_bits(25) == 28,
                huff_code(24) == 268435444,
                huff_code(25) == 268435445,
                pow2(4) == 16,
                pow2(4) == 16,
        ;
    } else if j == 243 {
        assert(code_order(243) == 25 && code_order(244) == 26);
        assert(huff_bits(25) == 28 && huff_bits(26) == 28);
        assert(huff_code(25) == 268435445 && huff_code(26) == 268435446);
        assert(code_end(25) <= code_start(26)) by (nonlinear_arith)
            requires
                huff_bits(25) == 28,
                huff_bits(26) == 28,
                huff_code(25) == 268435445,
                huff_code(26) == 268435446,
                pow2(4) == 16,
                pow2(4) == 16,
        ;
    } else if j == 244 {
        assert(code_order(244) == 26 && code_order(245) == 27);
        assert(huff_bits(26) == 28 && huff_bits(27) == 28);
        assert(huff_code(26) == 268435446 && huff_code(27) == 268435447);
        assert(code_end(26) <= code_start(27)) by (nonlinear_arith)
            requires
                huff_bits(26) == 28,
                huff_bits(27) == 28,
                huff_code(26) == 268435446,
                huff_code(27) == 268435447,
                pow2(4) == 16,
                pow2(4) == 16,
        ;
    } else if j == 245 {
        assert(code_order(245) == 27 && code_order(246) == 28);
        assert(huff_bits(27) == 28 && huff_bits(28) == 28);
        assert(huff_code(27) == 268435447 && huff_code(28) == 268435448);
        assert(code_end(27) <= code_start(28)) by (nonlinear_arith)
            requires
                huff_bits(27) == 28,
                huff_bits(28) == 28,
                huff_code(27) == 268435447,
                huff_code(28) == 268435448,
                pow2(4) == 16,
                pow2(4) == 16,
        ;
    } else if j == 246 {
        assert(code_order(246) == 28 && code_order(247) == 29);
        assert(huff_bits(28) == 28 && huff_bits(29) == 28);
        assert(huff_code(28) == 268435448 && huff_code(29) == 268435449);
        assert(code_end(28) <= code_start(29)) by (nonlinear_arith)
            requires
                huff_bits(28) == 28,
                huff_bits(29) == 28,
                huff_code(28) == 268435448,
                huff_code(29) == 268435449,
                pow2(4) == 16,
                pow2(4) == 16,
        ;
    } else if j == 247 {
        assert(code_order(247) == 29 && code_order(248) == 30);
        assert(huff_bits(29) == 28 && huff_bits(30) == 28);
        assert(huff_code(29) == 268435449 && huff_code(30) == 268435450);
        assert(code_end(29) <= code_start(30)) by (nonlinear_arith)
            requires
                huff_bits(29) == 28,
                huff_bits(30) == 28,
                huff_code(29) == 268435449,
                huff_code(30) == 268435450,
                pow2(4) == 16,
                pow2(4) == 16,
        ;
    } else if j == 248 {
        assert(code_order(248) == 30 && code_order(249) == 31);
        assert(huff_bits(30) == 28 && huff_bits(31) == 28);
        assert(huff_code(30) == 268435450 && huff_code(31) == 268435451);
        assert(code_end(30) <= code_start(31)) by (nonlinear_arith)
            requires
                huff_bits(30) == 28,
                huff_bits(31) == 28,
                huff_code(30) == 268435450,
                huff_code(31) == 268435451,
                pow2(4) == 16,
                pow2(4) == 16,
        ;
    } else if j == 249 {
        assert(code_order(249) == 31 && code_order(250) == 127);
        assert(huff_bits(31) == 28 && huff_bits(127) == 28);
        assert(huff_code(31) == 268435451 && huff_code(127) == 268435452);
        assert(code_end(31) <= code_start(127)) by (nonlinear_arith)
            requires
                huff_bits(31) == 28,
                huff_bits(127) == 28,
                huff_code(31) == 268435451,
                huff_code(127) == 268435452,
                pow2(4) == 16,
                pow2(4) == 16,
        ;
    } else if j == 250 {
        assert(code_order(250) == 127 && code_order(251) == 220);
        assert(huff_bits(127) == 28 && huff_bits(220) == 28);
        assert(huff_code(127) == 268435452 && huff_code(220) == 268435453);
        assert(code_end(127) <= code_start(220)) by (nonlinear_arith)
            requires
                huff_bits(127) == 28,
                huff_bits(220) == 28,
                huff_code(127) == 268435452,
                huff_code(220) == 268435453,
                pow2(4) == 16,
                pow2(4) == 16,
        ;
    } else if j == 251 {
        assert(code_order(251) == 220 && code_order(252) == 249);
        assert(huff_bits(220) == 28 && huff_bits(249) == 28);
        assert(huff_code(220) == 268435453 && huff_code(249) == 268435454);
        assert(code_end(220) <= code_start(249)) by (nonlinear_arith)
            requires
                huff_bits(220) == 28,
                huff_bits(249) == 28,
                huff_code(220) == 268435453,
                huff_code(249) == 268435454,
                pow2(4) == 16,
                pow2(4) == 16,
        ;
    } else if j == 252 {
        assert(code_order(252) == 249 && code_order(253) == 10);
        assert(huff_bits(249) == 28 && huff_bits(10) == 30);
        assert(huff_code(249) == 268435454 && huff_code(10) == 1073741820);
        assert(code_end(249) <= code_start(10)) by (nonlinear_arith)
            requires
                huff_bits(249) == 28,
                huff_bits(10) == 30,
                huff_code(249) == 268435454,
                huff_code(10) == 1073741820,
                pow2(4) == 16,
                pow2(2) == 4,
        ;
    } else if j == 253 {
        assert(code_order(253) == 10 && code_order(254) == 13);
        assert(huff_bits(10) == 30 && huff_bits(13) == 30);
        assert(huff_code(10) == 1073741820 && huff_code(13) == 1073741821);
        assert(code_end(10) <= code_start(13)) by (nonlinear_arith)
            requires
                huff_bits(10) == 30,
                huff_bits(13) == 30,
                huff_code(10) == 1073741820,
                huff_code(13) == 1073741821,
                pow2(2) == 4,
                pow2(2) == 4,
        ;
    } else if j == 254 {
        assert(code_order(254) == 13 && code_order(255) == 22);
        assert(huff_bits(13) == 30 && huff_bits(22) == 30);
        assert(huff_code(13) == 1073741821 && huff_code(22) == 1073741822);
        assert(code_end(13) <= code_start(22)) by (nonlinear_arith)
            requires
                huff_bits(13) == 30,
                huff_bits(22) == 30,
                huff_code(13) == 1073741821,
                huff_code(22) == 1073741822,
                pow2(2) == 4,
                pow2(2) == 4,
        ;
    } else if j == 255 {
        assert(code_order(255) == 22 && code_order(256) == 256);
        assert(huff_bits(22) == 30 && huff_bits(256) == 30);
        assert(huff_code(22) == 1073741822 && huff_code(256) == 1073741823);
        assert(code_end(22) <= code_start(256)) by (nonlinear_arith)
            requires
                huff_bits(22) == 30,
                huff_bits(256) == 30,
                huff_code(22) == 1073741822,
                huff_code(256) == 1073741823,
                pow2(2) == 4,
                pow2(2) == 4,
        ;
    } else {
    }
}

/// Sorting by code is a permutation of the symbols.
pub proof fn lemma_code_rank(s: int)
    requires
        0 <= s < 257,
    ensures
        0 <= code_rank(s) < 257,
        code_order(code_rank(s)) == s,
{
    if s < 16 {
        lemma_rank_0(s);
    } else if s < 32 {
        lemma_rank_1(s);
    } else if s < 48 {
        lemma_rank_2(s);
    } else if s < 64 {
        lemma_rank_3(s);
    } else if s < 80 {
        lemma_rank_4(s);
    } else if s < 96 {
        lemma_rank_5(s);
    } else if s < 112 {
        lemma_rank_6(s);
    } else if s < 128 {
        lemma_rank_7(s);
    } else if s < 144 {
        lemma_rank_8(s);
    } else if s < 160 {
        lemma_rank_9(s);
    } else if s < 176 {
        lemma_rank_10(s);
    } else if s < 192 {
        lemma_rank_11(s);
    } else if s < 208 {
        lemma_rank_12(s);
    } else if s < 224 {
        lemma_rank_13(s);
    } else if s < 240 {
        lemma_rank_14(s);
    } else if s < 256 {
        lemma_rank_15(s);
    } else if s < 257 {
        lemma_rank_16(s);
    } else {
    }
}

/// Each interval ends where the next one in code order starts, or before.
pub proof fn lemma_code_adjacent(j: int)
    requires
        0 <= j < 256,
    ensures
        code_end(code_order(j)) <= code_start(code_order(j + 1)),
{
    if j < 16 {
        lemma_adjacent_0(j);
    } else if j < 32 {
        lemma_adjacent_1(j);
    } else if j < 48 {
        lemma_adjacent_2(j);
    } else if j < 64 {
        lemma_adjacent_3(j);
    } else if j < 80 {
        lemma_adjacent_4(j);
    } else if j < 96 {
        lemma_adjacent_5(j);
    } else if j < 112 {
        lemma_adjacent_6(j);
    } else if j < 128 {
        lemma_adjacent_7(j);
    } else if j < 144 {
        lemma_adjacent_8(j);
    } else if j < 160 {
        lemma_adjacent_9(j);
    } else if j < 176 {
        lemma_adjacent_10(j);
    } else if j < 192 {
        lemma_adjacent_11(j);
    } else if j < 208 {
        lemma_adjacent_12(j);
    } else if j < 224 {
        lemma_adjacent_13(j);
    } else if j < 240 {
        lemma_adjacent_14(j);
    } else if j < 256 {
        lemma_adjacent_15(j);
    } else {
    }
}

/// An interval ends after it starts.
proof fn lemma_code_nonempty(s: int)
    requires
        0 <= s < 257,
    ensures
        code_start(s) < code_end(s),
{
    lemma_huff_table(s);
    vstd::arithmetic::power2::lemma_pow2_pos((32 - huff_bits(s)) as nat);
}

/// Intervals earlier in code order end before later ones start.
proof fn lemma_code_sorted(j: int, k: int)
    requires
        0 <= j < k < 257,
    ensures
        code_end(code_order(j)) <= code_start(code_order(k)),
    decreases k - j,
{
    lemma_code_adjacent(k - 1);
    if j < k - 1 {
        lemma_code_sorted(j, k - 1);
        lemma_code_nonempty(code_order(k - 1));
        lemma_code_order_range(k - 1);
    }
}

/// Code order lists symbols.
proof fn lemma_code_order_range(j: int)
    requires
        0 <= j < 257,
    ensures
        0 <= code_order(j) < 257,
{
    lemma_code_order_bounds();
}

/// The intervals of two different symbols do not overlap.
pub proof fn lemma_code_disjoint(s: int, t: int)
    requires
        0 <= s < 257,
        0 <= t < 257,
        s != t,
    ensures
        code_end(s) <= code_start(t) || code_end(t) <= code_start(s),
{
    lemma_code_rank(s);
    lemma_code_rank(t);
    if code_rank(s) < code_rank(t) {
        lemma_code_sorted(code_rank(s), code_rank(t));
    } else {
        lemma_code_sorted(code_rank(t), code_rank(s));
    }
}

/// Every position of code order holds a symbol.
proof fn lemma_code_order_bounds()
    ensures
        forall|j: int| #![trigger code_order(j)] 0 <= code_order(j) < 257,
{
}

} // verus!
