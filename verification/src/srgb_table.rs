use vstd::prelude::*;

verus! {

/// Linear-light value of a gamma-encoded sRGB channel byte, in units of
/// 2^-20 of full brightness: entry `s` is the nearest integer to
/// `2^20 * f(s / 255)`, where `f(x) = x / 12.92` for `x <= 0.04045` and
/// `f(x) = ((x + 0.055) / 1.055)^2.4` otherwise (the sRGB transfer curve).
pub open spec fn linear_units_spec(s: u8) -> u64 {
    if s < 128 {
        if s < 64 {
            if s < 32 {
                if s < 16 {
                    if s < 8 {
                        if s < 4 {
                            if s < 2 {
                                if s < 1 {
                                    0
                                } else {
                                    318
                                }
                            } else {
                                if s < 3 {
                                    637
                                } else {
                                    955
                                }
                            }
                        } else {
                            if s < 6 {
                                if s < 5 {
                                    1273
                                } else {
                                    1591
                                }
                            } else {
                                if s < 7 {
                                    1910
                                } else {
                                    2228
                                }
                            }
                        }
                    } else {
                        if s < 12 {
                            if s < 10 {
                                if s < 9 {
                                    2546
                                } else {
                                    2864
                                }
                            } else {
                                if s < 11 {
                                    3183
                                } else {
                                    3509
                                }
                            }
                        } else {
                            if s < 14 {
                                if s < 13 {
                                    3855
                                } else {
                                    4220
                                }
                            } else {
                                if s < 15 {
                                    4605
                                } else {
                                    5009
                                }
                            }
                        }
                    }
                } else {
                    if s < 24 {
                        if s < 20 {
                            if s < 18 {
                                if s < 17 {
                                    5433
                                } else {
                                    5878
                                }
                            } else {
                                if s < 19 {
                                    6343
                                } else {
                                    6828
                                }
                            }
                        } else {
                            if s < 22 {
                                if s < 21 {
                                    7335
                                } else {
                                    7863
                                }
                            } else {
                                if s < 23 {
                                    8413
                                } else {
                                    8984
                                }
                            }
                        }
                    } else {
                        if s < 28 {
                            if s < 26 {
                                if s < 25 {
                                    9578
                                } else {
                                    10193
                                }
                            } else {
                                if s < 27 {
                                    10832
                                } else {
                                    11492
                                }
                            }
                        } else {
                            if s < 30 {
                                if s < 29 {
                                    12176
                                } else {
                                    12883
                                }
                            } else {
                                if s < 31 {
                                    13614
                                } else {
                                    14368
                                }
                            }
                        }
                    }
                }
            } else {
                if s < 48 {
                    if s < 40 {
                        if s < 36 {
                            if s < 34 {
                                if s < 33 {
                                    15145
                                } else {
                                    15947
                                }
                            } else {
                                if s < 35 {
                                    16773
                                } else {
                                    17624
                                }
                            }
                        } else {
                            if s < 38 {
                                if s < 37 {
                                    18499
                                } else {
                                    19399
                                }
                            } else {
                                if s < 39 {
                                    20324
                                } else {
                                    21274
                                }
                            }
                        }
                    } else {
                        if s < 44 {
                            if s < 42 {
                                if s < 41 {
                                    22250
                                } else {
                                    23251
                                }
                            } else {
                                if s < 43 {
                                    24278
                                } else {
                                    25331
                                }
                            }
                        } else {
                            if s < 46 {
                                if s < 45 {
                                    26410
                                } else {
                                    27516
                                }
                            } else {
                                if s < 47 {
                                    28648
                                } else {
                                    29807
                                }
                            }
                        }
                    }
                } else {
                    if s < 56 {
                        if s < 52 {
                            if s < 50 {
                                if s < 49 {
                                    30993
                                } else {
                                    32205
                                }
                            } else {
                                if s < 51 {
                                    33445
                                } else {
                                    34713
                                }
                            }
                        } else {
                            if s < 54 {
                                if s < 53 {
                                    36008
                                } else {
                                    37331
                                }
                            } else {
                                if s < 55 {
                                    38681
                                } else {
                                    40060
                                }
                            }
                        }
                    } else {
                        if s < 60 {
                            if s < 58 {
                                if s < 57 {
                                    41467
                                } else {
                                    42903
                                }
                            } else {
                                if s < 59 {
                                    44367
                                } else {
                                    45860
                                }
                            }
                        } else {
                            if s < 62 {
                                if s < 61 {
                                    47381
                                } else {
                                    48932
                                }
                            } else {
                                if s < 63 {
                                    50512
                                } else {
                                    52121
                                }
                            }
                        }
                    }
                }
            }
        } else {
            if s < 96 {
                if s < 80 {
                    if s < 72 {
                        if s < 68 {
                            if s < 66 {
                                if s < 65 {
                                    53760
                                } else {
                                    55428
                                }
                            } else {
                                if s < 67 {
                                    57127
                                } else {
                                    58855
                                }
                            }
                        } else {
                            if s < 70 {
                                if s < 69 {
                                    60613
                                } else {
                                    62402
                                }
                            } else {
                                if s < 71 {
                                    64221
                                } else {
                                    66071
                                }
                            }
                        }
                    } else {
                        if s < 76 {
                            if s < 74 {
                                if s < 73 {
                                    67951
                                } else {
                                    69862
                                }
                            } else {
                                if s < 75 {
                                    71805
                                } else {
                                    73778
                                }
                            }
                        } else {
                            if s < 78 {
                                if s < 77 {
                                    75783
                                } else {
                                    77819
                                }
                            } else {
                                if s < 79 {
                                    79886
                                } else {
                                    81985
                                }
                            }
                        }
                    }
                } else {
                    if s < 88 {
                        if s < 84 {
                            if s < 82 {
                                if s < 81 {
                                    84117
                                } else {
                                    86280
                                }
                            } else {
                                if s < 83 {
                                    88475
                                } else {
                                    90702
                                }
                            }
                        } else {
                            if s < 86 {
                                if s < 85 {
                                    92962
                                } else {
                                    95254
                                }
                            } else {
                                if s < 87 {
                                    97579
                                } else {
                                    99937
                                }
                            }
                        }
                    } else {
                        if s < 92 {
                            if s < 90 {
                                if s < 89 {
                                    102328
                                } else {
                                    104751
                                }
                            } else {
                                if s < 91 {
                                    107208
                                } else {
                                    109698
                                }
                            }
                        } else {
                            if s < 94 {
                                if s < 93 {
                                    112222
                                } else {
                                    114779
                                }
                            } else {
                                if s < 95 {
                                    117370
                                } else {
                                    119994
                                }
                            }
                        }
                    }
                }
            } else {
                if s < 112 {
                    if s < 104 {
                        if s < 100 {
                            if s < 98 {
                                if s < 97 {
                                    122653
                                } else {
                                    125345
                                }
                            } else {
                                if s < 99 {
                                    128072
                                } else {
                                    130833
                                }
                            }
                        } else {
                            if s < 102 {
                                if s < 101 {
                                    133628
                                } else {
                                    136458
                                }
                            } else {
                                if s < 103 {
                                    139323
                                } else {
                                    142222
                                }
                            }
                        }
                    } else {
                        if s < 108 {
                            if s < 106 {
                                if s < 105 {
                                    145156
                                } else {
                                    148125
                                }
                            } else {
                                if s < 107 {
                                    151130
                                } else {
                                    154169
                                }
                            }
                        } else {
                            if s < 110 {
                                if s < 109 {
                                    157244
                                } else {
                                    160355
                                }
                            } else {
                                if s < 111 {
                                    163501
                                } else {
                                    166683
                                }
                            }
                        }
                    }
                } else {
                    if s < 120 {
                        if s < 116 {
                            if s < 114 {
                                if s < 113 {
                                    169900
                                } else {
                                    173154
                                }
                            } else {
                                if s < 115 {
                                    176443
                                } else {
                                    179769
                                }
                            }
                        } else {
                            if s < 118 {
                                if s < 117 {
                                    183131
                                } else {
                                    186530
                                }
                            } else {
                                if s < 119 {
                                    189964
                                } else {
                                    193436
                                }
                            }
                        }
                    } else {
                        if s < 124 {
                            if s < 122 {
                                if s < 121 {
                                    196944
                                } else {
                                    200489
                                }
                            } else {
                                if s < 123 {
                                    204072
                                } else {
                                    207691
                                }
                            }
                        } else {
                            if s < 126 {
                                if s < 125 {
                                    211347
                                } else {
                                    215041
                                }
                            } else {
                                if s < 127 {
                                    218772
                                } else {
                                    222540
                                }
                            }
                        }
                    }
                }
            }
        }
    } else {
        if s < 192 {
            if s < 160 {
                if s < 144 {
                    if s < 136 {
                        if s < 132 {
                            if s < 130 {
                                if s < 129 {
                                    226346
                                } else {
                                    230190
                                }
                            } else {
                                if s < 131 {
                                    234071
                                } else {
                                    237991
                                }
                            }
                        } else {
                            if s < 134 {
                                if s < 133 {
                                    241948
                                } else {
                                    245944
                                }
                            } else {
                                if s < 135 {
                                    249978
                                } else {
                                    254050
                                }
                            }
                        }
                    } else {
                        if s < 140 {
                            if s < 138 {
                                if s < 137 {
                                    258161
                                } else {
                                    262310
                                }
                            } else {
                                if s < 139 {
                                    266498
                                } else {
                                    270724
                                }
                            }
                        } else {
                            if s < 142 {
                                if s < 141 {
                                    274990
                                } else {
                                    279294
                                }
                            } else {
                                if s < 143 {
                                    283637
                                } else {
                                    288020
                                }
                            }
                        }
                    }
                } else {
                    if s < 152 {
                        if s < 148 {
                            if s < 146 {
                                if s < 145 {
                                    292442
                                } else {
                                    296903
                                }
                            } else {
                                if s < 147 {
                                    301404
                                } else {
                                    305944
                                }
                            }
                        } else {
                            if s < 150 {
                                if s < 149 {
                                    310523
                                } else {
                                    315143
                                }
                            } else {
                                if s < 151 {
                                    319802
                                } else {
                                    324502
                                }
                            }
                        }
                    } else {
                        if s < 156 {
                            if s < 154 {
                                if s < 153 {
                                    329241
                                } else {
                                    334021
                                }
                            } else {
                                if s < 155 {
                                    338840
                                } else {
                                    343700
                                }
                            }
                        } else {
                            if s < 158 {
                                if s < 157 {
                                    348601
                                } else {
                                    353542
                                }
                            } else {
                                if s < 159 {
                                    358523
                                } else {
                                    363546
                                }
                            }
                        }
                    }
                }
            } else {
                if s < 176 {
                    if s < 168 {
                        if s < 164 {
                            if s < 162 {
                                if s < 161 {
                                    368609
                                } else {
                                    373713
                                }
                            } else {
                                if s < 163 {
                                    378858
                                } else {
                                    384044
                                }
                            }
                        } else {
                            if s < 166 {
                                if s < 165 {
                                    389271
                                } else {
                                    394539
                                }
                            } else {
                                if s < 167 {
                                    399849
                                } else {
                                    405201
                                }
                            }
                        }
                    } else {
                        if s < 172 {
                            if s < 170 {
                                if s < 169 {
                                    410594
                                } else {
                                    416028
                                }
                            } else {
                                if s < 171 {
                                    421504
                                } else {
                                    427022
                                }
                            }
                        } else {
                            if s < 174 {
                                if s < 173 {
                                    432582
                                } else {
                                    438184
                                }
                            } else {
                                if s < 175 {
                                    443828
                                } else {
                                    449515
                                }
                            }
                        }
                    }
                } else {
                    if s < 184 {
                        if s < 180 {
                            if s < 178 {
                                if s < 177 {
                                    455243
                                } else {
                                    461014
                                }
                            } else {
                                if s < 179 {
                                    466827
                                } else {
                                    472683
                                }
                            }
                        } else {
                            if s < 182 {
                                if s < 181 {
                                    478582
                                } else {
                                    484523
                                }
                            } else {
                                if s < 183 {
                                    490507
                                } else {
                                    496534
                                }
                            }
                        }
                    } else {
                        if s < 188 {
                            if s < 186 {
                                if s < 185 {
                                    502604
                                } else {
                                    508717
                                }
                            } else {
                                if s < 187 {
                                    514873
                                } else {
                                    521072
                                }
                            }
                        } else {
                            if s < 190 {
                                if s < 189 {
                                    527315
                                } else {
                                    533601
                                }
                            } else {
                                if s < 191 {
                                    539930
                                } else {
                                    546303
                                }
                            }
                        }
                    }
                }
            }
        } else {
            if s < 224 {
                if s < 208 {
                    if s < 200 {
                        if s < 196 {
                            if s < 194 {
                                if s < 193 {
                                    552720
                                } else {
                                    559181
                                }
                            } else {
                                if s < 195 {
                                    565685
                                } else {
                                    572234
                                }
                            }
                        } else {
                            if s < 198 {
                                if s < 197 {
                                    578826
                                } else {
                                    585462
                                }
                            } else {
                                if s < 199 {
                                    592143
                                } else {
                                    598868
                                }
                            }
                        }
                    } else {
                        if s < 204 {
                            if s < 202 {
                                if s < 201 {
                                    605637
                                } else {
                                    612451
                                }
                            } else {
                                if s < 203 {
                                    619309
                                } else {
                                    626211
                                }
                            }
                        } else {
                            if s < 206 {
                                if s < 205 {
                                    633159
                                } else {
                                    640151
                                }
                            } else {
                                if s < 207 {
                                    647188
                                } else {
                                    654270
                                }
                            }
                        }
                    }
                } else {
                    if s < 216 {
                        if s < 212 {
                            if s < 210 {
                                if s < 209 {
                                    661397
                                } else {
                                    668569
                                }
                            } else {
                                if s < 211 {
                                    675786
                                } else {
                                    683048
                                }
                            }
                        } else {
                            if s < 214 {
                                if s < 213 {
                                    690356
                                } else {
                                    697709
                                }
                            } else {
                                if s < 215 {
                                    705108
                                } else {
                                    712552
                                }
                            }
                        }
                    } else {
                        if s < 220 {
                            if s < 218 {
                                if s < 217 {
                                    720042
                                } else {
                                    727577
                                }
                            } else {
                                if s < 219 {
                                    735159
                                } else {
                                    742786
                                }
                            }
                        } else {
                            if s < 222 {
                                if s < 221 {
                                    750459
                                } else {
                                    758178
                                }
                            } else {
                                if s < 223 {
                                    765944
                                } else {
                                    773755
                                }
                            }
                        }
                    }
                }
            } else {
                if s < 240 {
                    if s < 232 {
                        if s < 228 {
                            if s < 226 {
                                if s < 225 {
                                    781613
                                } else {
                                    789517
                                }
                            } else {
                                if s < 227 {
                                    797468
                                } else {
                                    805465
                                }
                            }
                        } else {
                            if s < 230 {
                                if s < 229 {
                                    813509
                                } else {
                                    821599
                                }
                            } else {
                                if s < 231 {
                                    829736
                                } else {
                                    837920
                                }
                            }
                        }
                    } else {
                        if s < 236 {
                            if s < 234 {
                                if s < 233 {
                                    846151
                                } else {
                                    854429
                                }
                            } else {
                                if s < 235 {
                                    862753
                                } else {
                                    871125
                                }
                            }
                        } else {
                            if s < 238 {
                                if s < 237 {
                                    879545
                                } else {
                                    888011
                                }
                            } else {
                                if s < 239 {
                                    896525
                                } else {
                                    905086
                                }
                            }
                        }
                    }
                } else {
                    if s < 248 {
                        if s < 244 {
                            if s < 242 {
                                if s < 241 {
                                    913695
                                } else {
                                    922351
                                }
                            } else {
                                if s < 243 {
                                    931055
                                } else {
                                    939807
                                }
                            }
                        } else {
                            if s < 246 {
                                if s < 245 {
                                    948606
                                } else {
                                    957453
                                }
                            } else {
                                if s < 247 {
                                    966349
                                } else {
                                    975292
                                }
                            }
                        }
                    } else {
                        if s < 252 {
                            if s < 250 {
                                if s < 249 {
                                    984283
                                } else {
                                    993323
                                }
                            } else {
                                if s < 251 {
                                    1002411
                                } else {
                                    1011547
                                }
                            }
                        } else {
                            if s < 254 {
                                if s < 253 {
                                    1020731
                                } else {
                                    1029964
                                }
                            } else {
                                if s < 255 {
                                    1039246
                                } else {
                                    1048576
                                }
                            }
                        }
                    }
                }
            }
        }
    }
}

/// Executable twin of `linear_units_spec`.
pub fn linear_units(s: u8) -> (r: u64)
    ensures
        r == linear_units_spec(s),
{
    if s < 128 {
        if s < 64 {
            if s < 32 {
                if s < 16 {
                    if s < 8 {
                        if s < 4 {
                            if s < 2 {
                                if s < 1 {
                                    0
                                } else {
                                    318
                                }
                            } else {
                                if s < 3 {
                                    637
                                } else {
                                    955
                                }
                            }
                        } else {
                            if s < 6 {
                                if s < 5 {
                                    1273
                                } else {
                                    1591
                                }
                            } else {
                                if s < 7 {
                                    1910
                                } else {
                                    2228
                                }
                            }
                        }
                    } else {
                        if s < 12 {
                            if s < 10 {
                                if s < 9 {
                                    2546
                                } else {
                                    2864
                                }
                            } else {
                                if s < 11 {
                                    3183
                                } else {
                                    3509
                                }
                            }
                        } else {
                            if s < 14 {
                                if s < 13 {
                                    3855
                                } else {
                                    4220
                                }
                            } else {
                                if s < 15 {
                                    4605
                                } else {
                                    5009
                                }
                            }
                        }
                    }
                } else {
                    if s < 24 {
                        if s < 20 {
                            if s < 18 {
                                if s < 17 {
                                    5433
                                } else {
                                    5878
                                }
                            } else {
                                if s < 19 {
                                    6343
                                } else {
                                    6828
                                }
                            }
                        } else {
                            if s < 22 {
                                if s < 21 {
                                    7335
                                } else {
                                    7863
                                }
                            } else {
                                if s < 23 {
                                    8413
                                } else {
                                    8984
                                }
                            }
                        }
                    } else {
                        if s < 28 {
                            if s < 26 {
                                if s < 25 {
                                    9578
                                } else {
                                    10193
                                }
                            } else {
                                if s < 27 {
                                    10832
                                } else {
                                    11492
                                }
                            }
                        } else {
                            if s < 30 {
                                if s < 29 {
                                    12176
                                } else {
                                    12883
                                }
                            } else {
                                if s < 31 {
                                    13614
                                } else {
                                    14368
                                }
                            }
                        }
                    }
                }
            } else {
                if s < 48 {
                    if s < 40 {
                        if s < 36 {
                            if s < 34 {
                                if s < 33 {
                                    15145
                                } else {
                                    15947
                                }
                            } else {
                                if s < 35 {
                                    16773
                                } else {
                                    17624
                                }
                            }
                        } else {
                            if s < 38 {
                                if s < 37 {
                                    18499
                                } else {
                                    19399
                                }
                            } else {
                                if s < 39 {
                                    20324
                                } else {
                                    21274
                                }
                            }
                        }
                    } else {
                        if s < 44 {
                            if s < 42 {
                                if s < 41 {
                                    22250
                                } else {
                                    23251
                                }
                            } else {
                                if s < 43 {
                                    24278
                                } else {
                                    25331
                                }
                            }
                        } else {
                            if s < 46 {
                                if s < 45 {
                                    26410
                                } else {
                                    27516
                                }
                            } else {
                                if s < 47 {
                                    28648
                                } else {
                                    29807
                                }
                            }
                        }
                    }
                } else {
                    if s < 56 {
                        if s < 52 {
                            if s < 50 {
                                if s < 49 {
                                    30993
                                } else {
                                    32205
                                }
                            } else {
                                if s < 51 {
                                    33445
                                } else {
                                    34713
                                }
                            }
                        } else {
                            if s < 54 {
                                if s < 53 {
                                    36008
                                } else {
                                    37331
                                }
                            } else {
                                if s < 55 {
                                    38681
                                } else {
                                    40060
                                }
                            }
                        }
                    } else {
                        if s < 60 {
                            if s < 58 {
                                if s < 57 {
                                    41467
                                } else {
                                    42903
                                }
                            } else {
                                if s < 59 {
                                    44367
                                } else {
                                    45860
                                }
                            }
                        } else {
                            if s < 62 {
                                if s < 61 {
                                    47381
                                } else {
                                    48932
                                }
                            } else {
                                if s < 63 {
                                    50512
                                } else {
                                    52121
                                }
                            }
                        }
                    }
                }
            }
        } else {
            if s < 96 {
                if s < 80 {
                    if s < 72 {
                        if s < 68 {
                            if s < 66 {
                                if s < 65 {
                                    53760
                                } else {
                                    55428
                                }
                            } else {
                                if s < 67 {
                                    57127
                                } else {
                                    58855
                                }
                            }
                        } else {
                            if s < 70 {
                                if s < 69 {
                                    60613
                                } else {
                                    62402
                                }
                            } else {
                                if s < 71 {
                                    64221
                                } else {
                                    66071
                                }
                            }
                        }
                    } else {
                        if s < 76 {
                            if s < 74 {
                                if s < 73 {
                                    67951
                                } else {
                                    69862
                                }
                            } else {
                                if s < 75 {
                                    71805
                                } else {
                                    73778
                                }
                            }
                        } else {
                            if s < 78 {
                                if s < 77 {
                                    75783
                                } else {
                                    77819
                                }
                            } else {
                                if s < 79 {
                                    79886
                                } else {
                                    81985
                                }
                            }
                        }
                    }
                } else {
                    if s < 88 {
                        if s < 84 {
                            if s < 82 {
                                if s < 81 {
                                    84117
                                } else {
                                    86280
                                }
                            } else {
                                if s < 83 {
                                    88475
                                } else {
                                    90702
                                }
                            }
                        } else {
                            if s < 86 {
                                if s < 85 {
                                    92962
                                } else {
                                    95254
                                }
                            } else {
                                if s < 87 {
                                    97579
                                } else {
                                    99937
                                }
                            }
                        }
                    } else {
                        if s < 92 {
                            if s < 90 {
                                if s < 89 {
                                    102328
                                } else {
                                    104751
                                }
                            } else {
                                if s < 91 {
                                    107208
                                } else {
                                    109698
                                }
                            }
                        } else {
                            if s < 94 {
                                if s < 93 {
                                    112222
                                } else {
                                    114779
                                }
                            } else {
                                if s < 95 {
                                    117370
                                } else {
                                    119994
                                }
                            }
                        }
                    }
                }
            } else {
                if s < 112 {
                    if s < 104 {
                        if s < 100 {
                            if s < 98 {
                                if s < 97 {
                                    122653
                                } else {
                                    125345
                                }
                            } else {
                                if s < 99 {
                                    128072
                                } else {
                                    130833
                                }
                            }
                        } else {
                            if s < 102 {
                                if s < 101 {
                                    133628
                                } else {
                                    136458
                                }
                            } else {
                                if s < 103 {
                                    139323
                                } else {
                                    142222
                                }
                            }
                        }
                    } else {
                        if s < 108 {
                            if s < 106 {
                                if s < 105 {
                                    145156
                                } else {
                                    148125
                                }
                            } else {
                                if s < 107 {
                                    151130
                                } else {
                                    154169
                                }
                            }
                        } else {
                            if s < 110 {
                                if s < 109 {
                                    157244
                                } else {
                                    160355
                                }
                            } else {
                                if s < 111 {
                                    163501
                                } else {
                                    166683
                                }
                            }
                        }
                    }
                } else {
                    if s < 120 {
                        if s < 116 {
                            if s < 114 {
                                if s < 113 {
                                    169900
                                } else {
                                    173154
                                }
                            } else {
                                if s < 115 {
                                    176443
                                } else {
                                    179769
                                }
                            }
                        } else {
                            if s < 118 {
                                if s < 117 {
                                    183131
                                } else {
                                    186530
                                }
                            } else {
                                if s < 119 {
                                    189964
                                } else {
                                    193436
                                }
                            }
                        }
                    } else {
                        if s < 124 {
                            if s < 122 {
                                if s < 121 {
                                    196944
                                } else {
                                    200489
                                }
                            } else {
                                if s < 123 {
                                    204072
                                } else {
                                    207691
                                }
                            }
                        } else {
                            if s < 126 {
                                if s < 125 {
                                    211347
                                } else {
                                    215041
                                }
                            } else {
                                if s < 127 {
                                    218772
                                } else {
                                    222540
                                }
                            }
                        }
                    }
                }
            }
        }
    } else {
        if s < 192 {
            if s < 160 {
                if s < 144 {
                    if s < 136 {
                        if s < 132 {
                            if s < 130 {
                                if s < 129 {
                                    226346
                                } else {
                                    230190
                                }
                            } else {
                                if s < 131 {
                                    234071
                                } else {
                                    237991
                                }
                            }
                        } else {
                            if s < 134 {
                                if s < 133 {
                                    241948
                                } else {
                                    245944
                                }
                            } else {
                                if s < 135 {
                                    249978
                                } else {
                                    254050
                                }
                            }
                        }
                    } else {
                        if s < 140 {
                            if s < 138 {
                                if s < 137 {
                                    258161
                                } else {
                                    262310
                                }
                            } else {
                                if s < 139 {
                                    266498
                                } else {
                                    270724
                                }
                            }
                        } else {
                            if s < 142 {
                                if s < 141 {
                                    274990
                                } else {
                                    279294
                                }
                            } else {
                                if s < 143 {
                                    283637
                                } else {
                                    288020
                                }
                            }
                        }
                    }
                } else {
                    if s < 152 {
                        if s < 148 {
                            if s < 146 {
                                if s < 145 {
                                    292442
                                } else {
                                    296903
                                }
                            } else {
                                if s < 147 {
                                    301404
                                } else {
                                    305944
                                }
                            }
                        } else {
                            if s < 150 {
                                if s < 149 {
                                    310523
                                } else {
                                    315143
                                }
                            } else {
                                if s < 151 {
                                    319802
                                } else {
                                    324502
                                }
                            }
                        }
                    } else {
                        if s < 156 {
                            if s < 154 {
                                if s < 153 {
                                    329241
                                } else {
                                    334021
                                }
                            } else {
                                if s < 155 {
                                    338840
                                } else {
                                    343700
                                }
                            }
                        } else {
                            if s < 158 {
                                if s < 157 {
                                    348601
                                } else {
                                    353542
                                }
                            } else {
                                if s < 159 {
                                    358523
                                } else {
                                    363546
                                }
                            }
                        }
                    }
                }
            } else {
                if s < 176 {
                    if s < 168 {
                        if s < 164 {
                            if s < 162 {
                                if s < 161 {
                                    368609
                                } else {
                                    373713
                                }
                            } else {
                                if s < 163 {
                                    378858
                                } else {
                                    384044
                                }
                            }
                        } else {
                            if s < 166 {
                                if s < 165 {
                                    389271
                                } else {
                                    394539
                                }
                            } else {
                                if s < 167 {
                                    399849
                                } else {
                                    405201
                                }
                            }
                        }
                    } else {
                        if s < 172 {
                            if s < 170 {
                                if s < 169 {
                                    410594
                                } else {
                                    416028
                                }
                            } else {
                                if s < 171 {
                                    421504
                                } else {
                                    427022
                                }
                            }
                        } else {
                            if s < 174 {
                                if s < 173 {
                                    432582
                                } else {
                                    438184
                                }
                            } else {
                                if s < 175 {
                                    443828
                                } else {
                                    449515
                                }
                            }
                        }
                    }
                } else {
                    if s < 184 {
                        if s < 180 {
                            if s < 178 {
                                if s < 177 {
                                    455243
                                } else {
                                    461014
                                }
                            } else {
                                if s < 179 {
                                    466827
                                } else {
                                    472683
                                }
                            }
                        } else {
                            if s < 182 {
                                if s < 181 {
                                    478582
                                } else {
                                    484523
                                }
                            } else {
                                if s < 183 {
                                    490507
                                } else {
                                    496534
                                }
                            }
                        }
                    } else {
                        if s < 188 {
                            if s < 186 {
                                if s < 185 {
                                    502604
                                } else {
                                    508717
                                }
                            } else {
                                if s < 187 {
                                    514873
                                } else {
                                    521072
                                }
                            }
                        } else {
                            if s < 190 {
                                if s < 189 {
                                    527315
                                } else {
                                    533601
                                }
                            } else {
                                if s < 191 {
                                    539930
                                } else {
                                    546303
                                }
                            }
                        }
                    }
                }
            }
        } else {
            if s < 224 {
                if s < 208 {
                    if s < 200 {
                        if s < 196 {
                            if s < 194 {
                                if s < 193 {
                                    552720
                                } else {
                                    559181
                                }
                            } else {
                                if s < 195 {
                                    565685
                                } else {
                                    572234
                                }
                            }
                        } else {
                            if s < 198 {
                                if s < 197 {
                                    578826
                                } else {
                                    585462
                                }
                            } else {
                                if s < 199 {
                                    592143
                                } else {
                                    598868
                                }
                            }
                        }
                    } else {
                        if s < 204 {
                            if s < 202 {
                                if s < 201 {
                                    605637
                                } else {
                                    612451
                                }
                            } else {
                                if s < 203 {
                                    619309
                                } else {
                                    626211
                                }
                            }
                        } else {
                            if s < 206 {
                                if s < 205 {
                                    633159
                                } else {
                                    640151
                                }
                            } else {
                                if s < 207 {
                                    647188
                                } else {
                                    654270
                                }
                            }
                        }
                    }
                } else {
                    if s < 216 {
                        if s < 212 {
                            if s < 210 {
                                if s < 209 {
                                    661397
                                } else {
                                    668569
                                }
                            } else {
                                if s < 211 {
                                    675786
                                } else {
                                    683048
                                }
                            }
                        } else {
                            if s < 214 {
                                if s < 213 {
                                    690356
                                } else {
                                    697709
                                }
                            } else {
                                if s < 215 {
                                    705108
                                } else {
                                    712552
                                }
                            }
                        }
                    } else {
                        if s < 220 {
                            if s < 218 {
                                if s < 217 {
                                    720042
                                } else {
                                    727577
                                }
                            } else {
                                if s < 219 {
                                    735159
                                } else {
                                    742786
                                }
                            }
                        } else {
                            if s < 222 {
                                if s < 221 {
                                    750459
                                } else {
                                    758178
                                }
                            } else {
                                if s < 223 {
                                    765944
                                } else {
                                    773755
                                }
                            }
                        }
                    }
                }
            } else {
                if s < 240 {
                    if s < 232 {
                        if s < 228 {
                            if s < 226 {
                                if s < 225 {
                                    781613
                                } else {
                                    789517
                                }
                            } else {
                                if s < 227 {
                                    797468
                                } else {
                                    805465
                                }
                            }
                        } else {
                            if s < 230 {
                                if s < 229 {
                                    813509
                                } else {
                                    821599
                                }
                            } else {
                                if s < 231 {
                                    829736
                                } else {
                                    837920
                                }
                            }
                        }
                    } else {
                        if s < 236 {
                            if s < 234 {
                                if s < 233 {
                                    846151
                                } else {
                                    854429
                                }
                            } else {
                                if s < 235 {
                                    862753
                                } else {
                                    871125
                                }
                            }
                        } else {
                            if s < 238 {
                                if s < 237 {
                                    879545
                                } else {
                                    888011
                                }
                            } else {
                                if s < 239 {
                                    896525
                                } else {
                                    905086
                                }
                            }
                        }
                    }
                } else {
                    if s < 248 {
                        if s < 244 {
                            if s < 242 {
                                if s < 241 {
                                    913695
                                } else {
                                    922351
                                }
                            } else {
                                if s < 243 {
                                    931055
                                } else {
                                    939807
                                }
                            }
                        } else {
                            if s < 246 {
                                if s < 245 {
                                    948606
                                } else {
                                    957453
                                }
                            } else {
                                if s < 247 {
                                    966349
                                } else {
                                    975292
                                }
                            }
                        }
                    } else {
                        if s < 252 {
                            if s < 250 {
                                if s < 249 {
                                    984283
                                } else {
                                    993323
                                }
                            } else {
                                if s < 251 {
                                    1002411
                                } else {
                                    1011547
                                }
                            }
                        } else {
                            if s < 254 {
                                if s < 253 {
                                    1020731
                                } else {
                                    1029964
                                }
                            } else {
                                if s < 255 {
                                    1039246
                                } else {
                                    1048576
                                }
                            }
                        }
                    }
                }
            }
        }
    }
}

/// Least linear-light value (same 2^-20 units) whose nearest gamma-encoded
/// channel byte is `s`: the least integer at or above
/// `2^20 * f((s - 1/2) / 255)`, with `f` as in `linear_units_spec`.
/// Entry 0 is 0: every linear value below `threshold_units_spec(1)`
/// quantizes to byte 0.
pub open spec fn threshold_units_spec(s: u8) -> u64 {
    if s < 128 {
        if s < 64 {
            if s < 32 {
                if s < 16 {
                    if s < 8 {
                        if s < 4 {
                            if s < 2 {
                                if s < 1 {
                                    0
                                } else {
                                    160
                                }
                            } else {
                                if s < 3 {
                                    478
                                } else {
                                    796
                                }
                            }
                        } else {
                            if s < 6 {
                                if s < 5 {
                                    1114
                                } else {
                                    1433
                                }
                            } else {
                                if s < 7 {
                                    1751
                                } else {
                                    2069
                                }
                            }
                        }
                    } else {
                        if s < 12 {
                            if s < 10 {
                                if s < 9 {
                                    2388
                                } else {
                                    2706
                                }
                            } else {
                                if s < 11 {
                                    3024
                                } else {
                                    3344
                                }
                            }
                        } else {
                            if s < 14 {
                                if s < 13 {
                                    3680
                                } else {
                                    4036
                                }
                            } else {
                                if s < 15 {
                                    4411
                                } else {
                                    4805
                                }
                            }
                        }
                    }
                } else {
                    if s < 24 {
                        if s < 20 {
                            if s < 18 {
                                if s < 17 {
                                    5219
                                } else {
                                    5653
                                }
                            } else {
                                if s < 19 {
                                    6108
                                } else {
                                    6583
                                }
                            }
                        } else {
                            if s < 22 {
                                if s < 21 {
                                    7080
                                } else {
                                    7597
                                }
                            } else {
                                if s < 23 {
                                    8136
                                } else {
                                    8696
                                }
                            }
                        }
                    } else {
                        if s < 28 {
                            if s < 26 {
                                if s < 25 {
                                    9279
                                } else {
                                    9883
                                }
                            } else {
                                if s < 27 {
                                    10510
                                } else {
                                    11160
                                }
                            }
                        } else {
                            if s < 30 {
                                if s < 29 {
                                    11832
                                } else {
                                    12527
                                }
                            } else {
                                if s < 31 {
                                    13246
                                } else {
                                    13988
                                }
                            }
                        }
                    }
                }
            } else {
                if s < 48 {
                    if s < 40 {
                        if s < 36 {
                            if s < 34 {
                                if s < 33 {
                                    14754
                                } else {
                                    15544
                                }
                            } else {
                                if s < 35 {
                                    16358
                                } else {
                                    17196
                                }
                            }
                        } else {
                            if s < 38 {
                                if s < 37 {
                                    18059
                                } else {
                                    18946
                                }
                            } else {
                                if s < 39 {
                                    19859
                                } else {
                                    20796
                                }
                            }
                        }
                    } else {
                        if s < 44 {
                            if s < 42 {
                                if s < 41 {
                                    21759
                                } else {
                                    22748
                                }
                            } else {
                                if s < 43 {
                                    23762
                                } else {
                                    24802
                                }
                            }
                        } else {
                            if s < 46 {
                                if s < 45 {
                                    25868
                                } else {
                                    26960
                                }
                            } else {
                                if s < 47 {
                                    28079
                                } else {
                                    29225
                                }
                            }
                        }
                    }
                } else {
                    if s < 56 {
                        if s < 52 {
                            if s < 50 {
                                if s < 49 {
                                    30397
                                } else {
                                    31596
                                }
                            } else {
                                if s < 51 {
                                    32822
                                } else {
                                    34076
                                }
                            }
                        } else {
                            if s < 54 {
                                if s < 53 {
                                    35357
                                } else {
                                    36666
                                }
                            } else {
                                if s < 55 {
                                    38003
                                } else {
                                    39368
                                }
                            }
                        }
                    } else {
                        if s < 60 {
                            if s < 58 {
                                if s < 57 {
                                    40761
                                } else {
                                    42182
                                }
                            } else {
                                if s < 59 {
                                    43632
                                } else {
                                    45110
                                }
                            }
                        } else {
                            if s < 62 {
                                if s < 61 {
                                    46617
                                } else {
                                    48153
                                }
                            } else {
                                if s < 63 {
                                    49719
                                } else {
                                    51313
                                }
                            }
                        }
                    }
                }
            }
        } else {
            if s < 96 {
                if s < 80 {
                    if s < 72 {
                        if s < 68 {
                            if s < 66 {
                                if s < 65 {
                                    52937
                                } else {
                                    54591
                                }
                            } else {
                                if s < 67 {
                                    56274
                                } else {
                                    57988
                                }
                            }
                        } else {
                            if s < 70 {
                                if s < 69 {
                                    59731
                                } else {
                                    61504
                                }
                            } else {
                                if s < 71 {
                                    63308
                                } else {
                                    65143
                                }
                            }
                        }
                    } else {
                        if s < 76 {
                            if s < 74 {
                                if s < 73 {
                                    67008
                                } else {
                                    68903
                                }
                            } else {
                                if s < 75 {
                                    70830
                                } else {
                                    72788
                                }
                            }
                        } else {
                            if s < 78 {
                                if s < 77 {
                                    74777
                                } else {
                                    76797
                                }
                            } else {
                                if s < 79 {
                                    78849
                                } else {
                                    80932
                                }
                            }
                        }
                    }
                } else {
                    if s < 88 {
                        if s < 84 {
                            if s < 82 {
                                if s < 81 {
                                    83048
                                } else {
                                    85195
                                }
                            } else {
                                if s < 83 {
                                    87374
                                } else {
                                    89585
                                }
                            }
                        } else {
                            if s < 86 {
                                if s < 85 {
                                    91829
                                } else {
                                    94105
                                }
                            } else {
                                if s < 87 {
                                    96413
                                } else {
                                    98755
                                }
                            }
                        }
                    } else {
                        if s < 92 {
                            if s < 90 {
                                if s < 89 {
                                    101129
                                } else {
                                    103536
                                }
                            } else {
                                if s < 91 {
                                    105976
                                } else {
                                    108450
                                }
                            }
                        } else {
                            if s < 94 {
                                if s < 93 {
                                    110956
                                } else {
                                    113497
                                }
                            } else {
                                if s < 95 {
                                    116071
                                } else {
                                    118678
                                }
                            }
                        }
                    }
                }
            } else {
                if s < 112 {
                    if s < 104 {
                        if s < 100 {
                            if s < 98 {
                                if s < 97 {
                                    121320
                                } else {
                                    123995
                                }
                            } else {
                                if s < 99 {
                                    126705
                                } else {
                                    129448
                                }
                            }
                        } else {
                            if s < 102 {
                                if s < 101 {
                                    132227
                                } else {
                                    135039
                                }
                            } else {
                                if s < 103 {
                                    137886
                                } else {
                                    140768
                                }
                            }
                        }
                    } else {
                        if s < 108 {
                            if s < 106 {
                                if s < 105 {
                                    143685
                                } else {
                                    146637
                                }
                            } else {
                                if s < 107 {
                                    149624
                                } else {
                                    152646
                                }
                            }
                        } else {
                            if s < 110 {
                                if s < 109 {
                                    155703
                                } else {
                                    158796
                                }
                            } else {
                                if s < 111 {
                                    161924
                                } else {
                                    165088
                                }
                            }
                        }
                    }
                } else {
                    if s < 120 {
                        if s < 116 {
                            if s < 114 {
                                if s < 113 {
                                    168287
                                } else {
                                    171523
                                }
                            } else {
                                if s < 115 {
                                    174794
                                } else {
                                    178102
                                }
                            }
                        } else {
                            if s < 118 {
                                if s < 117 {
                                    181446
                                } else {
                                    184826
                                }
                            } else {
                                if s < 119 {
                                    188243
                                } else {
                                    191696
                                }
                            }
                        }
                    } else {
                        if s < 124 {
                            if s < 122 {
                                if s < 121 {
                                    195186
                                } else {
                                    198713
                                }
                            } else {
                                if s < 123 {
                                    202276
                                } else {
                                    205877
                                }
                            }
                        } else {
                            if s < 126 {
                                if s < 125 {
                                    209515
                                } else {
                                    213190
                                }
                            } else {
                                if s < 127 {
                                    216902
                                } else {
                                    220652
                                }
                            }
                        }
                    }
                }
            }
        }
    } else {
        if s < 192 {
            if s < 160 {
                if s < 144 {
                    if s < 136 {
                        if s < 132 {
                            if s < 130 {
                                if s < 129 {
                                    224439
                                } else {
                                    228264
                                }
                            } else {
                                if s < 131 {
                                    232126
                                } else {
                                    236027
                                }
                            }
                        } else {
                            if s < 134 {
                                if s < 133 {
                                    239965
                                } else {
                                    243942
                                }
                            } else {
                                if s < 135 {
                                    247957
                                } else {
                                    252010
                                }
                            }
                        }
                    } else {
                        if s < 140 {
                            if s < 138 {
                                if s < 137 {
                                    256101
                                } else {
                                    260231
                                }
                            } else {
                                if s < 139 {
                                    264400
                                } else {
                                    268607
                                }
                            }
                        } else {
                            if s < 142 {
                                if s < 141 {
                                    272853
                                } else {
                                    277138
                                }
                            } else {
                                if s < 143 {
                                    281461
                                } else {
                                    285824
                                }
                            }
                        }
                    }
                } else {
                    if s < 152 {
                        if s < 148 {
                            if s < 146 {
                                if s < 145 {
                                    290227
                                } else {
                                    294668
                                }
                            } else {
                                if s < 147 {
                                    299149
                                } else {
                                    303669
                                }
                            }
                        } else {
                            if s < 150 {
                                if s < 149 {
                                    308229
                                } else {
                                    312829
                                }
                            } else {
                                if s < 151 {
                                    317468
                                } else {
                                    322148
                                }
                            }
                        }
                    } else {
                        if s < 156 {
                            if s < 154 {
                                if s < 153 {
                                    326867
                                } else {
                                    331626
                                }
                            } else {
                                if s < 155 {
                                    336426
                                } else {
                                    341266
                                }
                            }
                        } else {
                            if s < 158 {
                                if s < 157 {
                                    346146
                                } else {
                                    351067
                                }
                            } else {
                                if s < 159 {
                                    356028
                                } else {
                                    361030
                                }
                            }
                        }
                    }
                }
            } else {
                if s < 176 {
                    if s < 168 {
                        if s < 164 {
                            if s < 162 {
                                if s < 161 {
                                    366072
                                } else {
                                    371156
                                }
                            } else {
                                if s < 163 {
                                    376280
                                } else {
                                    381446
                                }
                            }
                        } else {
                            if s < 166 {
                                if s < 165 {
                                    386653
                                } else {
                                    391901
                                }
                            } else {
                                if s < 167 {
                                    397190
                                } else {
                                    402520
                                }
                            }
                        }
                    } else {
                        if s < 172 {
                            if s < 170 {
                                if s < 169 {
                                    407892
                                } else {
                                    413306
                                }
                            } else {
                                if s < 171 {
                                    418761
                                } else {
                                    424259
                                }
                            }
                        } else {
                            if s < 174 {
                                if s < 173 {
                                    429798
                                } else {
                                    435379
                                }
                            } else {
                                if s < 175 {
                                    441002
                                } else {
                                    446667
                                }
                            }
                        }
                    }
                } else {
                    if s < 184 {
                        if s < 180 {
                            if s < 178 {
                                if s < 177 {
                                    452374
                                } else {
                                    458124
                                }
                            } else {
                                if s < 179 {
                                    463916
                                } else {
                                    469750
                                }
                            }
                        } else {
                            if s < 182 {
                                if s < 181 {
                                    475628
                                } else {
                                    481547
                                }
                            } else {
                                if s < 183 {
                                    487510
                                } else {
                                    493515
                                }
                            }
                        }
                    } else {
                        if s < 188 {
                            if s < 186 {
                                if s < 185 {
                                    499564
                                } else {
                                    505655
                                }
                            } else {
                                if s < 187 {
                                    511790
                                } else {
                                    517967
                                }
                            }
                        } else {
                            if s < 190 {
                                if s < 189 {
                                    524188
                                } else {
                                    530453
                                }
                            } else {
                                if s < 191 {
                                    536761
                                } else {
                                    543112
                                }
                            }
                        }
                    }
                }
            }
        } else {
            if s < 224 {
                if s < 208 {
                    if s < 200 {
                        if s < 196 {
                            if s < 194 {
                                if s < 193 {
                                    549507
                                } else {
                                    555946
                                }
                            } else {
                                if s < 195 {
                                    562428
                                } else {
                                    568954
                                }
                            }
                        } else {
                            if s < 198 {
                                if s < 197 {
                                    575525
                                } else {
                                    582139
                                }
                            } else {
                                if s < 199 {
                                    588798
                                } else {
                                    595500
                                }
                            }
                        }
                    } else {
                        if s < 204 {
                            if s < 202 {
                                if s < 201 {
                                    602247
                                } else {
                                    609039
                                }
                            } else {
                                if s < 203 {
                                    615875
                                } else {
                                    622755
                                }
                            }
                        } else {
                            if s < 206 {
                                if s < 205 {
                                    629680
                                } else {
                                    636650
                                }
                            } else {
                                if s < 207 {
                                    643664
                                } else {
                                    650724
                                }
                            }
                        }
                    }
                } else {
                    if s < 216 {
                        if s < 212 {
                            if s < 210 {
                                if s < 209 {
                                    657828
                                } else {
                                    664978
                                }
                            } else {
                                if s < 211 {
                                    672172
                                } else {
                                    679412
                                }
                            }
                        } else {
                            if s < 214 {
                                if s < 213 {
                                    686697
                                } else {
                                    694027
                                }
                            } else {
                                if s < 215 {
                                    701403
                                } else {
                                    708825
                                }
                            }
                        }
                    } else {
                        if s < 220 {
                            if s < 218 {
                                if s < 217 {
                                    716292
                                } else {
                                    723804
                                }
                            } else {
                                if s < 219 {
                                    731363
                                } else {
                                    738967
                                }
                            }
                        } else {
                            if s < 222 {
                                if s < 221 {
                                    746617
                                } else {
                                    754313
                                }
                            } else {
                                if s < 223 {
                                    762056
                                } else {
                                    769844
                                }
                            }
                        }
                    }
                }
            } else {
                if s < 240 {
                    if s < 232 {
                        if s < 228 {
                            if s < 226 {
                                if s < 225 {
                                    777679
                                } else {
                                    785560
                                }
                            } else {
                                if s < 227 {
                                    793487
                                } else {
                                    801461
                                }
                            }
                        } else {
                            if s < 230 {
                                if s < 229 {
                                    809481
                                } else {
                                    817548
                                }
                            } else {
                                if s < 231 {
                                    825662
                                } else {
                                    833823
                                }
                            }
                        }
                    } else {
                        if s < 236 {
                            if s < 234 {
                                if s < 233 {
                                    842030
                                } else {
                                    850284
                                }
                            } else {
                                if s < 235 {
                                    858586
                                } else {
                                    866934
                                }
                            }
                        } else {
                            if s < 238 {
                                if s < 237 {
                                    875330
                                } else {
                                    883772
                                }
                            } else {
                                if s < 239 {
                                    892262
                                } else {
                                    900800
                                }
                            }
                        }
                    }
                } else {
                    if s < 248 {
                        if s < 244 {
                            if s < 242 {
                                if s < 241 {
                                    909385
                                } else {
                                    918017
                                }
                            } else {
                                if s < 243 {
                                    926697
                                } else {
                                    935425
                                }
                            }
                        } else {
                            if s < 246 {
                                if s < 245 {
                                    944201
                                } else {
                                    953024
                                }
                            } else {
                                if s < 247 {
                                    961895
                                } else {
                                    970815
                                }
                            }
                        }
                    } else {
                        if s < 252 {
                            if s < 250 {
                                if s < 249 {
                                    979782
                                } else {
                                    988798
                                }
                            } else {
                                if s < 251 {
                                    997861
                                } else {
                                    1006973
                                }
                            }
                        } else {
                            if s < 254 {
                                if s < 253 {
                                    1016134
                                } else {
                                    1025342
                                }
                            } else {
                                if s < 255 {
                                    1034600
                                } else {
                                    1043905
                                }
                            }
                        }
                    }
                }
            }
        }
    }
}

/// Executable twin of `threshold_units_spec`.
pub fn threshold_units(s: u8) -> (r: u64)
    ensures
        r == threshold_units_spec(s),
{
    if s < 128 {
        if s < 64 {
            if s < 32 {
                if s < 16 {
                    if s < 8 {
                        if s < 4 {
                            if s < 2 {
                                if s < 1 {
                                    0
                                } else {
                                    160
                                }
                            } else {
                                if s < 3 {
                                    478
                                } else {
                                    796
                                }
                            }
                        } else {
                            if s < 6 {
                                if s < 5 {
                                    1114
                                } else {
                                    1433
                                }
                            } else {
                                if s < 7 {
                                    1751
                                } else {
                                    2069
                                }
                            }
                        }
                    } else {
                        if s < 12 {
                            if s < 10 {
                                if s < 9 {
                                    2388
                                } else {
                                    2706
                                }
                            } else {
                                if s < 11 {
                                    3024
                                } else {
                                    3344
                                }
                            }
                        } else {
                            if s < 14 {
                                if s < 13 {
                                    3680
                                } else {
                                    4036
                                }
                            } else {
                                if s < 15 {
                                    4411
                                } else {
                                    4805
                                }
                            }
                        }
                    }
                } else {
                    if s < 24 {
                        if s < 20 {
                            if s < 18 {
                                if s < 17 {
                                    5219
                                } else {
                                    5653
                                }
                            } else {
                                if s < 19 {
                                    6108
                                } else {
                                    6583
                                }
                            }
                        } else {
                            if s < 22 {
                                if s < 21 {
                                    7080
                                } else {
                                    7597
                                }
                            } else {
                                if s < 23 {
                                    8136
                                } else {
                                    8696
                                }
                            }
                        }
                    } else {
                        if s < 28 {
                            if s < 26 {
                                if s < 25 {
                                    9279
                                } else {
                                    9883
                                }
                            } else {
                                if s < 27 {
                                    10510
                                } else {
                                    11160
                                }
                            }
                        } else {
                            if s < 30 {
                                if s < 29 {
                                    11832
                                } else {
                                    12527
                                }
                            } else {
                                if s < 31 {
                                    13246
                                } else {
                                    13988
                                }
                            }
                        }
                    }
                }
            } else {
                if s < 48 {
                    if s < 40 {
                        if s < 36 {
                            if s < 34 {
                                if s < 33 {
                                    14754
                                } else {
                                    15544
                                }
                            } else {
                                if s < 35 {
                                    16358
                                } else {
                                    17196
                                }
                            }
                        } else {
                            if s < 38 {
                                if s < 37 {
                                    18059
                                } else {
                                    18946
                                }
                            } else {
                                if s < 39 {
                                    19859
                                } else {
                                    20796
                                }
                            }
                        }
                    } else {
                        if s < 44 {
                            if s < 42 {
                                if s < 41 {
                                    21759
                                } else {
                                    22748
                                }
                            } else {
                                if s < 43 {
                                    23762
                                } else {
                                    24802
                                }
                            }
                        } else {
                            if s < 46 {
                                if s < 45 {
                                    25868
                                } else {
                                    26960
                                }
                            } else {
                                if s < 47 {
                                    28079
                                } else {
                                    29225
                                }
                            }
                        }
                    }
                } else {
                    if s < 56 {
                        if s < 52 {
                            if s < 50 {
                                if s < 49 {
                                    30397
                                } else {
                                    31596
                                }
                            } else {
                                if s < 51 {
                                    32822
                                } else {
                                    34076
                                }
                            }
                        } else {
                            if s < 54 {
                                if s < 53 {
                                    35357
                                } else {
                                    36666
                                }
                            } else {
                                if s < 55 {
                                    38003
                                } else {
                                    39368
                                }
                            }
                        }
                    } else {
                        if s < 60 {
                            if s < 58 {
                                if s < 57 {
                                    40761
                                } else {
                                    42182
                                }
                            } else {
                                if s < 59 {
                                    43632
                                } else {
                                    45110
                                }
                            }
                        } else {
                            if s < 62 {
                                if s < 61 {
                                    46617
                                } else {
                                    48153
                                }
                            } else {
                                if s < 63 {
                                    49719
                                } else {
                                    51313
                                }
                            }
                        }
                    }
                }
            }
        } else {
            if s < 96 {
                if s < 80 {
                    if s < 72 {
                        if s < 68 {
                            if s < 66 {
                                if s < 65 {
                                    52937
                                } else {
                                    54591
                                }
                            } else {
                                if s < 67 {
                                    56274
                                } else {
                                    57988
                                }
                            }
                        } else {
                            if s < 70 {
                                if s < 69 {
                                    59731
                                } else {
                                    61504
                                }
                            } else {
                                if s < 71 {
                                    63308
                                } else {
                                    65143
                                }
                            }
                        }
                    } else {
                        if s < 76 {
                            if s < 74 {
                                if s < 73 {
                                    67008
                                } else {
                                    68903
                                }
                            } else {
                                if s < 75 {
                                    70830
                                } else {
                                    72788
                                }
                            }
                        } else {
                            if s < 78 {
                                if s < 77 {
                                    74777
                                } else {
                                    76797
                                }
                            } else {
                                if s < 79 {
                                    78849
                                } else {
                                    80932
                                }
                            }
                        }
                    }
                } else {
                    if s < 88 {
                        if s < 84 {
                            if s < 82 {
                                if s < 81 {
                                    83048
                                } else {
                                    85195
                                }
                            } else {
                                if s < 83 {
                                    87374
                                } else {
                                    89585
                                }
                            }
                        } else {
                            if s < 86 {
                                if s < 85 {
                                    91829
                                } else {
                                    94105
                                }
                            } else {
                                if s < 87 {
                                    96413
                                } else {
                                    98755
                                }
                            }
                        }
                    } else {
                        if s < 92 {
                            if s < 90 {
                                if s < 89 {
                                    101129
                                } else {
                                    103536
                                }
                            } else {
                                if s < 91 {
                                    105976
                                } else {
                                    108450
                                }
                            }
                        } else {
                            if s < 94 {
                                if s < 93 {
                                    110956
                                } else {
                                    113497
                                }
                            } else {
                                if s < 95 {
                                    116071
                                } else {
                                    118678
                                }
                            }
                        }
                    }
                }
            } else {
                if s < 112 {
                    if s < 104 {
                        if s < 100 {
                            if s < 98 {
                                if s < 97 {
                                    121320
                                } else {
                                    123995
                                }
                            } else {
                                if s < 99 {
                                    126705
                                } else {
                                    129448
                                }
                            }
                        } else {
                            if s < 102 {
                                if s < 101 {
                                    132227
                                } else {
                                    135039
                                }
                            } else {
                                if s < 103 {
                                    137886
                                } else {
                                    140768
                                }
                            }
                        }
                    } else {
                        if s < 108 {
                            if s < 106 {
                                if s < 105 {
                                    143685
                                } else {
                                    146637
                                }
                            } else {
                                if s < 107 {
                                    149624
                                } else {
                                    152646
                                }
                            }
                        } else {
                            if s < 110 {
                                if s < 109 {
                                    155703
                                } else {
                                    158796
                                }
                            } else {
                                if s < 111 {
                                    161924
                                } else {
                                    165088
                                }
                            }
                        }
                    }
                } else {
                    if s < 120 {
                        if s < 116 {
                            if s < 114 {
                                if s < 113 {
                                    168287
                                } else {
                                    171523
                                }
                            } else {
                                if s < 115 {
                                    174794
                                } else {
                                    178102
                                }
                            }
                        } else {
                            if s < 118 {
                                if s < 117 {
                                    181446
                                } else {
                                    184826
                                }
                            } else {
                                if s < 119 {
                                    188243
                                } else {
                                    191696
                                }
                            }
                        }
                    } else {
                        if s < 124 {
                            if s < 122 {
                                if s < 121 {
                                    195186
                                } else {
                                    198713
                                }
                            } else {
                                if s < 123 {
                                    202276
                                } else {
                                    205877
                                }
                            }
                        } else {
                            if s < 126 {
                                if s < 125 {
                                    209515
                                } else {
                                    213190
                                }
                            } else {
                                if s < 127 {
                                    216902
                                } else {
                                    220652
                                }
                            }
                        }
                    }
                }
            }
        }
    } else {
        if s < 192 {
            if s < 160 {
                if s < 144 {
                    if s < 136 {
                        if s < 132 {
                            if s < 130 {
                                if s < 129 {
                                    224439
                                } else {
                                    228264
                                }
                            } else {
                                if s < 131 {
                                    232126
                                } else {
                                    236027
                                }
                            }
                        } else {
                            if s < 134 {
                                if s < 133 {
                                    239965
                                } else {
                                    243942
                                }
                            } else {
                                if s < 135 {
                                    247957
                                } else {
                                    252010
                                }
                            }
                        }
                    } else {
                        if s < 140 {
                            if s < 138 {
                                if s < 137 {
                                    256101
                                } else {
                                    260231
                                }
                            } else {
                                if s < 139 {
                                    264400
                                } else {
                                    268607
                                }
                            }
                        } else {
                            if s < 142 {
                                if s < 141 {
                                    272853
                                } else {
                                    277138
                                }
                            } else {
                                if s < 143 {
                                    281461
                                } else {
                                    285824
                                }
                            }
                        }
                    }
                } else {
                    if s < 152 {
                        if s < 148 {
                            if s < 146 {
                                if s < 145 {
                                    290227
                                } else {
                                    294668
                                }
                            } else {
                                if s < 147 {
                                    299149
                                } else {
                                    303669
                                }
                            }
                        } else {
                            if s < 150 {
                                if s < 149 {
                                    308229
                                } else {
                                    312829
                                }
                            } else {
                                if s < 151 {
                                    317468
                                } else {
                                    322148
                                }
                            }
                        }
                    } else {
                        if s < 156 {
                            if s < 154 {
                                if s < 153 {
                                    326867
                                } else {
                                    331626
                                }
                            } else {
                                if s < 155 {
                                    336426
                                } else {
                                    341266
                                }
                            }
                        } else {
                            if s < 158 {
                                if s < 157 {
                                    346146
                                } else {
                                    351067
                                }
                            } else {
                                if s < 159 {
                                    356028
                                } else {
                                    361030
                                }
                            }
                        }
                    }
                }
            } else {
                if s < 176 {
                    if s < 168 {
                        if s < 164 {
                            if s < 162 {
                                if s < 161 {
                                    366072
                                } else {
                                    371156
                                }
                            } else {
                                if s < 163 {
                                    376280
                                } else {
                                    381446
                                }
                            }
                        } else {
                            if s < 166 {
                                if s < 165 {
                                    386653
                                } else {
                                    391901
                                }
                            } else {
                                if s < 167 {
                                    397190
                                } else {
                                    402520
                                }
                            }
                        }
                    } else {
                        if s < 172 {
                            if s < 170 {
                                if s < 169 {
                                    407892
                                } else {
                                    413306
                                }
                            } else {
                                if s < 171 {
                                    418761
                                } else {
                                    424259
                                }
                            }
                        } else {
                            if s < 174 {
                                if s < 173 {
                                    429798
                                } else {
                                    435379
                                }
                            } else {
                                if s < 175 {
                                    441002
                                } else {
                                    446667
                                }
                            }
                        }
                    }
                } else {
                    if s < 184 {
                        if s < 180 {
                            if s < 178 {
                                if s < 177 {
                                    452374
                                } else {
                                    458124
                                }
                            } else {
                                if s < 179 {
                                    463916
                                } else {
                                    469750
                                }
                            }
                        } else {
                            if s < 182 {
                                if s < 181 {
                                    475628
                                } else {
                                    481547
                                }
                            } else {
                                if s < 183 {
                                    487510
                                } else {
                                    493515
                                }
                            }
                        }
                    } else {
                        if s < 188 {
                            if s < 186 {
                                if s < 185 {
                                    499564
                                } else {
                                    505655
                                }
                            } else {
                                if s < 187 {
                                    511790
                                } else {
                                    517967
                                }
                            }
                        } else {
                            if s < 190 {
                                if s < 189 {
                                    524188
                                } else {
                                    530453
                                }
                            } else {
                                if s < 191 {
                                    536761
                                } else {
                                    543112
                                }
                            }
                        }
                    }
                }
            }
        } else {
            if s < 224 {
                if s < 208 {
                    if s < 200 {
                        if s < 196 {
                            if s < 194 {
                                if s < 193 {
                                    549507
                                } else {
                                    555946
                                }
                            } else {
                                if s < 195 {
                                    562428
                                } else {
                                    568954
                                }
                            }
                        } else {
                            if s < 198 {
                                if s < 197 {
                                    575525
                                } else {
                                    582139
                                }
                            } else {
                                if s < 199 {
                                    588798
                                } else {
                                    595500
                                }
                            }
                        }
                    } else {
                        if s < 204 {
                            if s < 202 {
                                if s < 201 {
                                    602247
                                } else {
                                    609039
                                }
                            } else {
                                if s < 203 {
                                    615875
                                } else {
                                    622755
                                }
                            }
                        } else {
                            if s < 206 {
                                if s < 205 {
                                    629680
                                } else {
                                    636650
                                }
                            } else {
                                if s < 207 {
                                    643664
                                } else {
                                    650724
                                }
                            }
                        }
                    }
                } else {
                    if s < 216 {
                        if s < 212 {
                            if s < 210 {
                                if s < 209 {
                                    657828
                                } else {
                                    664978
                                }
                            } else {
                                if s < 211 {
                                    672172
                                } else {
                                    679412
                                }
                            }
                        } else {
                            if s < 214 {
                                if s < 213 {
                                    686697
                                } else {
                                    694027
                                }
                            } else {
                                if s < 215 {
                                    701403
                                } else {
                                    708825
                                }
                            }
                        }
                    } else {
                        if s < 220 {
                            if s < 218 {
                                if s < 217 {
                                    716292
                                } else {
                                    723804
                                }
                            } else {
                                if s < 219 {
                                    731363
                                } else {
                                    738967
                                }
                            }
                        } else {
                            if s < 222 {
                                if s < 221 {
                                    746617
                                } else {
                                    754313
                                }
                            } else {
                                if s < 223 {
                                    762056
                                } else {
                                    769844
                                }
                            }
                        }
                    }
                }
            } else {
                if s < 240 {
                    if s < 232 {
                        if s < 228 {
                            if s < 226 {
                                if s < 225 {
                                    777679
                                } else {
                                    785560
                                }
                            } else {
                                if s < 227 {
                                    793487
                                } else {
                                    801461
                                }
                            }
                        } else {
                            if s < 230 {
                                if s < 229 {
                                    809481
                                } else {
                                    817548
                                }
                            } else {
                                if s < 231 {
                                    825662
                                } else {
                                    833823
                                }
                            }
                        }
                    } else {
                        if s < 236 {
                            if s < 234 {
                                if s < 233 {
                                    842030
                                } else {
                                    850284
                                }
                            } else {
                                if s < 235 {
                                    858586
                                } else {
                                    866934
                                }
                            }
                        } else {
                            if s < 238 {
                                if s < 237 {
                                    875330
                                } else {
                                    883772
                                }
                            } else {
                                if s < 239 {
                                    892262
                                } else {
                                    900800
                                }
                            }
                        }
                    }
                } else {
                    if s < 248 {
                        if s < 244 {
                            if s < 242 {
                                if s < 241 {
                                    909385
                                } else {
                                    918017
                                }
                            } else {
                                if s < 243 {
                                    926697
                                } else {
                                    935425
                                }
                            }
                        } else {
                            if s < 246 {
                                if s < 245 {
                                    944201
                                } else {
                                    953024
                                }
                            } else {
                                if s < 247 {
                                    961895
                                } else {
                                    970815
                                }
                            }
                        }
                    } else {
                        if s < 252 {
                            if s < 250 {
                                if s < 249 {
                                    979782
                                } else {
                                    988798
                                }
                            } else {
                                if s < 251 {
                                    997861
                                } else {
                                    1006973
                                }
                            }
                        } else {
                            if s < 254 {
                                if s < 253 {
                                    1016134
                                } else {
                                    1025342
                                }
                            } else {
                                if s < 255 {
                                    1034600
                                } else {
                                    1043905
                                }
                            }
                        }
                    }
                }
            }
        }
    }
}

/// The quantization thresholds are strictly increasing from one channel
/// byte to the next.
pub proof fn lemma_threshold_adjacent(k: u8)
    requires
        k < 255,
    ensures
        threshold_units_spec(k) < threshold_units_spec((k + 1) as u8),
{
}

/// Each channel byte's linear value lies between its own quantization
/// threshold and the next one, so quantizing it recovers the byte.
pub proof fn lemma_table_bracket(s: u8)
    ensures
        threshold_units_spec(s) <= linear_units_spec(s),
        s < 255 ==> linear_units_spec(s) < threshold_units_spec((s + 1) as u8),
{
}

/// Every table and threshold entry is at most 2^20, the linear value of
/// full brightness.
pub proof fn lemma_units_range(s: u8)
    ensures
        linear_units_spec(s) <= 1048576,
        threshold_units_spec(s) <= 1048576,
        linear_units_spec(255) == 1048576,
        linear_units_spec(0) == 0,
{
}

} // verus!
