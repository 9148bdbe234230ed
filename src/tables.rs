//! Pitch and modulation tables.
//!
//! The period table holds, for each of the sixteen finetune steps `ft`, the
//! sixty note periods `floor(base(i + 1) * 2^(rft / 192))` with
//! `rft = -(ft if ft <= 8 else ft - 16)`. The sine table holds
//! `floor((a + 1.5) * sin(x / 32))` for amplitudes `a` in `0..15` and phases
//! `x` in `0..64`. Both were evaluated once in high precision; no entry lies
//! within 1/1000 of an integer, so the floors are exact.
use vstd::prelude::*;

verus! {

/// Number of notes (C-1 .. B-3).
pub const NOTE_COUNT: usize = 60;

/// The Amiga base periods; index 0 is a sentinel for "no note".
pub open spec fn base_periods() -> Seq<int> {
    seq![
        0, 1712, 1616, 1525, 1440, 1357, 1281, 1209, 1141, 1077, 1017, 961,
        907, 856, 808, 762, 720, 678, 640, 604, 570, 538, 508, 480,
        453, 428, 404, 381, 360, 339, 320, 302, 285, 269, 254, 240,
        226, 214, 202, 190, 180, 170, 160, 151, 143, 135, 127, 120,
        113, 107, 101, 95, 90, 85, 80, 76, 71, 67, 64, 60,
        57,
    ]
}

/// Base period of note index `i` (`0 <= i <= 60`).
pub open spec fn base_period(i: int) -> int {
    base_periods()[i]
}

/// Row 0 of the period table.
pub open spec fn period_row_0() -> Seq<int> {
    seq![
        1712, 1616, 1525, 1440, 1357, 1281, 1209, 1141, 1077, 1017, 961, 907,
        856, 808, 762, 720, 678, 640, 604, 570, 538, 508, 480, 453,
        428, 404, 381, 360, 339, 320, 302, 285, 269, 254, 240, 226,
        214, 202, 190, 180, 170, 160, 151, 143, 135, 127, 120, 113,
        107, 101, 95, 90, 85, 80, 76, 71, 67, 64, 60, 57,
    ]
}

/// Row 1 of the period table.
pub open spec fn period_row_1() -> Seq<int> {
    seq![
        1705, 1610, 1519, 1434, 1352, 1276, 1204, 1136, 1073, 1013, 957, 903,
        852, 805, 759, 717, 675, 637, 601, 567, 536, 506, 478, 451,
        426, 402, 379, 358, 337, 318, 300, 283, 268, 253, 239, 225,
        213, 201, 189, 179, 169, 159, 150, 142, 134, 126, 119, 112,
        106, 100, 94, 89, 84, 79, 75, 70, 66, 63, 59, 56,
    ]
}

/// Row 2 of the period table.
pub open spec fn period_row_2() -> Seq<int> {
    seq![
        1699, 1604, 1514, 1429, 1347, 1271, 1200, 1132, 1069, 1009, 954, 900,
        849, 802, 756, 714, 673, 635, 599, 565, 534, 504, 476, 449,
        424, 401, 378, 357, 336, 317, 299, 282, 267, 252, 238, 224,
        212, 200, 188, 178, 168, 158, 149, 141, 134, 126, 119, 112,
        106, 100, 94, 89, 84, 79, 75, 70, 66, 63, 59, 56,
    ]
}

/// Row 3 of the period table.
pub open spec fn period_row_3() -> Seq<int> {
    seq![
        1693, 1598, 1508, 1424, 1342, 1267, 1195, 1128, 1065, 1006, 950, 897,
        846, 799, 753, 712, 670, 633, 597, 563, 532, 502, 474, 448,
        423, 399, 376, 356, 335, 316, 298, 281, 266, 251, 237, 223,
        211, 199, 187, 178, 168, 158, 149, 141, 133, 125, 118, 111,
        105, 99, 93, 89, 84, 79, 75, 70, 66, 63, 59, 56,
    ]
}

/// Row 4 of the period table.
pub open spec fn period_row_4() -> Seq<int> {
    seq![
        1687, 1592, 1503, 1419, 1337, 1262, 1191, 1124, 1061, 1002, 947, 893,
        843, 796, 751, 709, 668, 630, 595, 561, 530, 500, 473, 446,
        421, 398, 375, 354, 334, 315, 297, 280, 265, 250, 236, 222,
        210, 199, 187, 177, 167, 157, 148, 140, 133, 125, 118, 111,
        105, 99, 93, 88, 83, 78, 74, 69, 66, 63, 59, 56,
    ]
}

/// Row 5 of the period table.
pub open spec fn period_row_5() -> Seq<int> {
    seq![
        1681, 1587, 1497, 1414, 1332, 1258, 1187, 1120, 1057, 998, 943, 890,
        840, 793, 748, 707, 665, 628, 593, 559, 528, 498, 471, 444,
        420, 396, 374, 353, 332, 314, 296, 279, 264, 249, 235, 221,
        210, 198, 186, 176, 166, 157, 148, 140, 132, 124, 117, 110,
        105, 99, 93, 88, 83, 78, 74, 69, 65, 62, 58, 55,
    ]
}

/// Row 6 of the period table.
pub open spec fn period_row_6() -> Seq<int> {
    seq![
        1675, 1581, 1492, 1409, 1327, 1253, 1183, 1116, 1053, 995, 940, 887,
        837, 790, 745, 704, 663, 626, 591, 557, 526, 497, 469, 443,
        418, 395, 372, 352, 331, 313, 295, 278, 263, 248, 234, 221,
        209, 197, 185, 176, 166, 156, 147, 139, 132, 124, 117, 110,
        104, 98, 92, 88, 83, 78, 74, 69, 65, 62, 58, 55,
    ]
}

/// Row 7 of the period table.
pub open spec fn period_row_7() -> Seq<int> {
    seq![
        1669, 1575, 1486, 1404, 1323, 1249, 1178, 1112, 1050, 991, 937, 884,
        834, 787, 742, 702, 661, 624, 588, 555, 524, 495, 468, 441,
        417, 393, 371, 351, 330, 312, 294, 277, 262, 247, 234, 220,
        208, 196, 185, 175, 165, 156, 147, 139, 131, 123, 117, 110,
        104, 98, 92, 87, 82, 78, 74, 69, 65, 62, 58, 55,
    ]
}

/// Row 8 of the period table.
pub open spec fn period_row_8() -> Seq<int> {
    seq![
        1663, 1569, 1481, 1399, 1318, 1244, 1174, 1108, 1046, 988, 933, 881,
        831, 784, 740, 699, 658, 621, 586, 553, 522, 493, 466, 440,
        415, 392, 370, 349, 329, 310, 293, 276, 261, 246, 233, 219,
        207, 196, 184, 174, 165, 155, 146, 138, 131, 123, 116, 109,
        103, 98, 92, 87, 82, 77, 73, 68, 65, 62, 58, 55,
    ]
}

/// Row 9 of the period table.
pub open spec fn period_row_9() -> Seq<int> {
    seq![
        1755, 1657, 1564, 1476, 1391, 1313, 1239, 1170, 1104, 1043, 985, 930,
        877, 828, 781, 738, 695, 656, 619, 584, 551, 521, 492, 464,
        438, 414, 390, 369, 347, 328, 309, 292, 275, 260, 246, 231,
        219, 207, 194, 184, 174, 164, 154, 146, 138, 130, 123, 115,
        109, 103, 97, 92, 87, 82, 77, 72, 68, 65, 61, 58,
    ]
}

/// Row 10 of the period table.
pub open spec fn period_row_10() -> Seq<int> {
    seq![
        1749, 1651, 1558, 1471, 1386, 1309, 1235, 1165, 1100, 1039, 982, 926,
        874, 825, 778, 735, 692, 654, 617, 582, 549, 519, 490, 462,
        437, 412, 389, 367, 346, 327, 308, 291, 274, 259, 245, 230,
        218, 206, 194, 183, 173, 163, 154, 146, 137, 129, 122, 115,
        109, 103, 97, 91, 86, 81, 77, 72, 68, 65, 61, 58,
    ]
}

/// Row 11 of the period table.
pub open spec fn period_row_11() -> Seq<int> {
    seq![
        1743, 1645, 1552, 1466, 1381, 1304, 1231, 1161, 1096, 1035, 978, 923,
        871, 822, 775, 733, 690, 651, 615, 580, 547, 517, 488, 461,
        435, 411, 387, 366, 345, 325, 307, 290, 273, 258, 244, 230,
        217, 205, 193, 183, 173, 162, 153, 145, 137, 129, 122, 115,
        108, 102, 96, 91, 86, 81, 77, 72, 68, 65, 61, 58,
    ]
}

/// Row 12 of the period table.
pub open spec fn period_row_12() -> Seq<int> {
    seq![
        1736, 1639, 1547, 1460, 1376, 1299, 1226, 1157, 1092, 1031, 974, 920,
        868, 819, 773, 730, 687, 649, 612, 578, 545, 515, 486, 459,
        434, 409, 386, 365, 343, 324, 306, 289, 272, 257, 243, 229,
        217, 204, 192, 182, 172, 162, 153, 145, 136, 128, 121, 114,
        108, 102, 96, 91, 86, 81, 77, 72, 67, 64, 60, 57,
    ]
}

/// Row 13 of the period table.
pub open spec fn period_row_13() -> Seq<int> {
    seq![
        1730, 1633, 1541, 1455, 1371, 1294, 1222, 1153, 1088, 1028, 971, 916,
        865, 816, 770, 727, 685, 646, 610, 576, 543, 513, 485, 457,
        432, 408, 385, 363, 342, 323, 305, 288, 271, 256, 242, 228,
        216, 204, 192, 181, 171, 161, 152, 144, 136, 128, 121, 114,
        108, 102, 96, 90, 85, 80, 76, 71, 67, 64, 60, 57,
    ]
}

/// Row 14 of the period table.
pub open spec fn period_row_14() -> Seq<int> {
    seq![
        1724, 1627, 1536, 1450, 1366, 1290, 1217, 1149, 1084, 1024, 967, 913,
        862, 813, 767, 725, 682, 644, 608, 574, 541, 511, 483, 456,
        431, 406, 383, 362, 341, 322, 304, 287, 270, 255, 241, 227,
        215, 203, 191, 181, 171, 161, 152, 144, 135, 127, 120, 113,
        107, 101, 95, 90, 85, 80, 76, 71, 67, 64, 60, 57,
    ]
}

/// Row 15 of the period table.
pub open spec fn period_row_15() -> Seq<int> {
    seq![
        1718, 1621, 1530, 1445, 1361, 1285, 1213, 1145, 1080, 1020, 964, 910,
        859, 810, 764, 722, 680, 642, 606, 572, 539, 509, 481, 454,
        429, 405, 382, 361, 340, 321, 303, 286, 269, 254, 240, 226,
        214, 202, 190, 180, 170, 160, 151, 143, 135, 127, 120, 113,
        107, 101, 95, 90, 85, 80, 76, 71, 67, 64, 60, 57,
    ]
}

/// Row `ft` of the period table.
pub open spec fn period_row(ft: int) -> Seq<int> {
    if ft == 0 {
        period_row_0()
    } else if ft == 1 {
        period_row_1()
    } else if ft == 2 {
        period_row_2()
    } else if ft == 3 {
        period_row_3()
    } else if ft == 4 {
        period_row_4()
    } else if ft == 5 {
        period_row_5()
    } else if ft == 6 {
        period_row_6()
    } else if ft == 7 {
        period_row_7()
    } else if ft == 8 {
        period_row_8()
    } else if ft == 9 {
        period_row_9()
    } else if ft == 10 {
        period_row_10()
    } else if ft == 11 {
        period_row_11()
    } else if ft == 12 {
        period_row_12()
    } else if ft == 13 {
        period_row_13()
    } else if ft == 14 {
        period_row_14()
    } else {
        period_row_15()
    }
}

/// Entry `[ft][i]` of the period table.
pub open spec fn period_value(ft: int, i: int) -> int {
    period_row(ft)[i]
}

pub open spec fn sine_entries() -> Seq<int> {
    seq![
        0, 0, 0, 0, 0, 0, 0, 0, 0, 0, 0, 0,
        0, 0, 0, 0, 0, 0, 0, 0, 0, 0, 0, 0,
        1, 1, 1, 1, 1, 1, 1, 1, 1, 1, 1, 1,
        1, 1, 1, 1, 1, 1, 1, 1, 1, 1, 1, 1,
        1, 1, 1, 1, 1, 1, 1, 1, 1, 1, 1, 1,
        1, 1, 1, 1, 0, 0, 0, 0, 0, 0, 0, 0,
        0, 0, 0, 0, 0, 0, 1, 1, 1, 1, 1, 1,
        1, 1, 1, 1, 1, 1, 1, 1, 1, 1, 2, 2,
        2, 2, 2, 2, 2, 2, 2, 2, 2, 2, 2, 2,
        2, 2, 2, 2, 2, 2, 2, 2, 2, 2, 2, 2,
        2, 2, 2, 2, 2, 2, 2, 2, 0, 0, 0, 0,
        0, 0, 0, 0, 0, 0, 1, 1, 1, 1, 1, 1,
        1, 1, 1, 1, 2, 2, 2, 2, 2, 2, 2, 2,
        2, 2, 2, 2, 2, 3, 3, 3, 3, 3, 3, 3,
        3, 3, 3, 3, 3, 3, 3, 3, 3, 3, 3, 3,
        3, 3, 3, 3, 3, 3, 3, 3, 3, 3, 3, 3,
        0, 0, 0, 0, 0, 0, 0, 0, 1, 1, 1, 1,
        1, 1, 1, 2, 2, 2, 2, 2, 2, 2, 2, 2,
        3, 3, 3, 3, 3, 3, 3, 3, 3, 3, 3, 3,
        4, 4, 4, 4, 4, 4, 4, 4, 4, 4, 4, 4,
        4, 4, 4, 4, 4, 4, 4, 4, 4, 4, 4, 4,
        4, 4, 4, 4, 0, 0, 0, 0, 0, 0, 1, 1,
        1, 1, 1, 1, 2, 2, 2, 2, 2, 2, 2, 3,
        3, 3, 3, 3, 3, 3, 3, 4, 4, 4, 4, 4,
        4, 4, 4, 4, 4, 5, 5, 5, 5, 5, 5, 5,
        5, 5, 5, 5, 5, 5, 5, 5, 5, 5, 5, 5,
        5, 5, 5, 5, 5, 5, 5, 5, 0, 0, 0, 0,
        0, 1, 1, 1, 1, 1, 1, 2, 2, 2, 2, 2,
        3, 3, 3, 3, 3, 3, 4, 4, 4, 4, 4, 4,
        4, 5, 5, 5, 5, 5, 5, 5, 5, 5, 6, 6,
        6, 6, 6, 6, 6, 6, 6, 6, 6, 6, 6, 6,
        6, 6, 6, 6, 6, 6, 6, 6, 6, 6, 6, 5,
        0, 0, 0, 0, 0, 1, 1, 1, 1, 2, 2, 2,
        2, 2, 3, 3, 3, 3, 3, 4, 4, 4, 4, 4,
        5, 5, 5, 5, 5, 5, 6, 6, 6, 6, 6, 6,
        6, 6, 6, 7, 7, 7, 7, 7, 7, 7, 7, 7,
        7, 7, 7, 7, 7, 7, 7, 7, 7, 7, 7, 7,
        7, 7, 7, 6, 0, 0, 0, 0, 1, 1, 1, 1,
        2, 2, 2, 2, 3, 3, 3, 3, 4, 4, 4, 4,
        4, 5, 5, 5, 5, 5, 6, 6, 6, 6, 6, 7,
        7, 7, 7, 7, 7, 7, 7, 7, 8, 8, 8, 8,
        8, 8, 8, 8, 8, 8, 8, 8, 8, 8, 8, 8,
        8, 8, 8, 8, 8, 8, 7, 7, 0, 0, 0, 0,
        1, 1, 1, 2, 2, 2, 2, 3, 3, 3, 4, 4,
        4, 4, 5, 5, 5, 5, 6, 6, 6, 6, 6, 7,
        7, 7, 7, 7, 7, 8, 8, 8, 8, 8, 8, 8,
        9, 9, 9, 9, 9, 9, 9, 9, 9, 9, 9, 9,
        9, 9, 9, 9, 9, 9, 9, 9, 9, 8, 8, 8,
        0, 0, 0, 0, 1, 1, 1, 2, 2, 2, 3, 3,
        3, 4, 4, 4, 5, 5, 5, 5, 6, 6, 6, 6,
        7, 7, 7, 7, 8, 8, 8, 8, 8, 9, 9, 9,
        9, 9, 9, 9, 9, 10, 10, 10, 10, 10, 10, 10,
        10, 10, 10, 10, 10, 10, 10, 10, 10, 10, 10, 10,
        10, 9, 9, 9, 0, 0, 0, 1, 1, 1, 2, 2,
        2, 3, 3, 3, 4, 4, 4, 5, 5, 5, 6, 6,
        6, 7, 7, 7, 7, 8, 8, 8, 8, 9, 9, 9,
        9, 9, 10, 10, 10, 10, 10, 10, 10, 11, 11, 11,
        11, 11, 11, 11, 11, 11, 11, 11, 11, 11, 11, 11,
        11, 11, 11, 11, 10, 10, 10, 10, 0, 0, 0, 1,
        1, 1, 2, 2, 3, 3, 3, 4, 4, 4, 5, 5,
        5, 6, 6, 6, 7, 7, 7, 8, 8, 8, 9, 9,
        9, 9, 10, 10, 10, 10, 10, 11, 11, 11, 11, 11,
        11, 11, 12, 12, 12, 12, 12, 12, 12, 12, 12, 12,
        12, 12, 12, 12, 12, 12, 12, 12, 11, 11, 11, 11,
        0, 0, 0, 1, 1, 2, 2, 2, 3, 3, 4, 4,
        4, 5, 5, 6, 6, 6, 7, 7, 7, 8, 8, 8,
        9, 9, 9, 10, 10, 10, 10, 11, 11, 11, 11, 11,
        12, 12, 12, 12, 12, 12, 13, 13, 13, 13, 13, 13,
        13, 13, 13, 13, 13, 13, 13, 13, 13, 13, 13, 13,
        12, 12, 12, 12, 0, 0, 0, 1, 1, 2, 2, 3,
        3, 4, 4, 4, 5, 5, 6, 6, 6, 7, 7, 8,
        8, 8, 9, 9, 9, 10, 10, 10, 11, 11, 11, 11,
        12, 12, 12, 12, 13, 13, 13, 13, 13, 13, 14, 14,
        14, 14, 14, 14, 14, 14, 14, 14, 14, 14, 14, 14,
        14, 14, 14, 13, 13, 13, 13, 13, 0, 0, 0, 1,
        1, 2, 2, 3, 3, 4, 4, 5, 5, 6, 6, 7,
        7, 7, 8, 8, 9, 9, 9, 10, 10, 10, 11, 11,
        11, 12, 12, 12, 13, 13, 13, 13, 13, 14, 14, 14,
        14, 14, 14, 15, 15, 15, 15, 15, 15, 15, 15, 15,
        15, 15, 15, 15, 15, 15, 15, 14, 14, 14, 14, 14,
    ]
}

/// Entry `[wave][ampl][x]` of the vibrato / tremolo table.
pub open spec fn vib_value(wave: int, ampl: int, x: int) -> int {
    if wave == 0 {
        sine_entries()[ampl * 64 + x]
    } else if wave == 1 {
        ((2 * ampl + 3) * (63 - 2 * x)) / 126
    } else if x < 32 {
        ampl + 1
    } else {
        -(ampl + 2)
    }
}

/// Base period of note index `i`.
pub fn base_period_of(i: usize) -> (r: u16)
    requires
        i <= 60,
    ensures
        r as int == base_period(i as int),
{
    let t: [u16; 61] = [
        0, 1712, 1616, 1525, 1440, 1357, 1281, 1209, 1141, 1077, 1017, 961,
        907, 856, 808, 762, 720, 678, 640, 604, 570, 538, 508, 480,
        453, 428, 404, 381, 360, 339, 320, 302, 285, 269, 254, 240,
        226, 214, 202, 190, 180, 170, 160, 151, 143, 135, 127, 120,
        113, 107, 101, 95, 90, 85, 80, 76, 71, 67, 64, 60,
        57,
    ];
    assert(t@.map_values(|v: u16| v as int) =~= base_periods());
    t[i]
}

/// Entry `[ft][i]` of the period table.
fn period_lookup(ft: usize, i: usize) -> (r: u16)
    requires
        ft < 16,
        i < 60,
    ensures
        r as int == period_value(ft as int, i as int),
{
    if ft == 0 {
        let t: [u16; 60] = [
            1712, 1616, 1525, 1440, 1357, 1281, 1209, 1141, 1077, 1017, 961, 907,
            856, 808, 762, 720, 678, 640, 604, 570, 538, 508, 480, 453,
            428, 404, 381, 360, 339, 320, 302, 285, 269, 254, 240, 226,
            214, 202, 190, 180, 170, 160, 151, 143, 135, 127, 120, 113,
            107, 101, 95, 90, 85, 80, 76, 71, 67, 64, 60, 57,
        ];
        assert(t@.map_values(|v: u16| v as int) =~= period_row_0());
        t[i]
    } else if ft == 1 {
        let t: [u16; 60] = [
            1705, 1610, 1519, 1434, 1352, 1276, 1204, 1136, 1073, 1013, 957, 903,
            852, 805, 759, 717, 675, 637, 601, 567, 536, 506, 478, 451,
            426, 402, 379, 358, 337, 318, 300, 283, 268, 253, 239, 225,
            213, 201, 189, 179, 169, 159, 150, 142, 134, 126, 119, 112,
            106, 100, 94, 89, 84, 79, 75, 70, 66, 63, 59, 56,
        ];
        assert(t@.map_values(|v: u16| v as int) =~= period_row_1());
        t[i]
    } else if ft == 2 {
        let t: [u16; 60] = [
            1699, 1604, 1514, 1429, 1347, 1271, 1200, 1132, 1069, 1009, 954, 900,
            849, 802, 756, 714, 673, 635, 599, 565, 534, 504, 476, 449,
            424, 401, 378, 357, 336, 317, 299, 282, 267, 252, 238, 224,
            212, 200, 188, 178, 168, 158, 149, 141, 134, 126, 119, 112,
            106, 100, 94, 89, 84, 79, 75, 70, 66, 63, 59, 56,
        ];
        assert(t@.map_values(|v: u16| v as int) =~= period_row_2());
        t[i]
    } else if ft == 3 {
        let t: [u16; 60] = [
            1693, 1598, 1508, 1424, 1342, 1267, 1195, 1128, 1065, 1006, 950, 897,
            846, 799, 753, 712, 670, 633, 597, 563, 532, 502, 474, 448,
            423, 399, 376, 356, 335, 316, 298, 281, 266, 251, 237, 223,
            211, 199, 187, 178, 168, 158, 149, 141, 133, 125, 118, 111,
            105, 99, 93, 89, 84, 79, 75, 70, 66, 63, 59, 56,
        ];
        assert(t@.map_values(|v: u16| v as int) =~= period_row_3());
        t[i]
    } else if ft == 4 {
        let t: [u16; 60] = [
            1687, 1592, 1503, 1419, 1337, 1262, 1191, 1124, 1061, 1002, 947, 893,
            843, 796, 751, 709, 668, 630, 595, 561, 530, 500, 473, 446,
            421, 398, 375, 354, 334, 315, 297, 280, 265, 250, 236, 222,
            210, 199, 187, 177, 167, 157, 148, 140, 133, 125, 118, 111,
            105, 99, 93, 88, 83, 78, 74, 69, 66, 63, 59, 56,
        ];
        assert(t@.map_values(|v: u16| v as int) =~= period_row_4());
        t[i]
    } else if ft == 5 {
        let t: [u16; 60] = [
            1681, 1587, 1497, 1414, 1332, 1258, 1187, 1120, 1057, 998, 943, 890,
            840, 793, 748, 707, 665, 628, 593, 559, 528, 498, 471, 444,
            420, 396, 374, 353, 332, 314, 296, 279, 264, 249, 235, 221,
            210, 198, 186, 176, 166, 157, 148, 140, 132, 124, 117, 110,
            105, 99, 93, 88, 83, 78, 74, 69, 65, 62, 58, 55,
        ];
        assert(t@.map_values(|v: u16| v as int) =~= period_row_5());
        t[i]
    } else if ft == 6 {
        let t: [u16; 60] = [
            1675, 1581, 1492, 1409, 1327, 1253, 1183, 1116, 1053, 995, 940, 887,
            837, 790, 745, 704, 663, 626, 591, 557, 526, 497, 469, 443,
            418, 395, 372, 352, 331, 313, 295, 278, 263, 248, 234, 221,
            209, 197, 185, 176, 166, 156, 147, 139, 132, 124, 117, 110,
            104, 98, 92, 88, 83, 78, 74, 69, 65, 62, 58, 55,
        ];
        assert(t@.map_values(|v: u16| v as int) =~= period_row_6());
        t[i]
    } else if ft == 7 {
        let t: [u16; 60] = [
            1669, 1575, 1486, 1404, 1323, 1249, 1178, 1112, 1050, 991, 937, 884,
            834, 787, 742, 702, 661, 624, 588, 555, 524, 495, 468, 441,
            417, 393, 371, 351, 330, 312, 294, 277, 262, 247, 234, 220,
            208, 196, 185, 175, 165, 156, 147, 139, 131, 123, 117, 110,
            104, 98, 92, 87, 82, 78, 74, 69, 65, 62, 58, 55,
        ];
        assert(t@.map_values(|v: u16| v as int) =~= period_row_7());
        t[i]
    } else if ft == 8 {
        let t: [u16; 60] = [
            1663, 1569, 1481, 1399, 1318, 1244, 1174, 1108, 1046, 988, 933, 881,
            831, 784, 740, 699, 658, 621, 586, 553, 522, 493, 466, 440,
            415, 392, 370, 349, 329, 310, 293, 276, 261, 246, 233, 219,
            207, 196, 184, 174, 165, 155, 146, 138, 131, 123, 116, 109,
            103, 98, 92, 87, 82, 77, 73, 68, 65, 62, 58, 55,
        ];
        assert(t@.map_values(|v: u16| v as int) =~= period_row_8());
        t[i]
    } else if ft == 9 {
        let t: [u16; 60] = [
            1755, 1657, 1564, 1476, 1391, 1313, 1239, 1170, 1104, 1043, 985, 930,
            877, 828, 781, 738, 695, 656, 619, 584, 551, 521, 492, 464,
            438, 414, 390, 369, 347, 328, 309, 292, 275, 260, 246, 231,
            219, 207, 194, 184, 174, 164, 154, 146, 138, 130, 123, 115,
            109, 103, 97, 92, 87, 82, 77, 72, 68, 65, 61, 58,
        ];
        assert(t@.map_values(|v: u16| v as int) =~= period_row_9());
        t[i]
    } else if ft == 10 {
        let t: [u16; 60] = [
            1749, 1651, 1558, 1471, 1386, 1309, 1235, 1165, 1100, 1039, 982, 926,
            874, 825, 778, 735, 692, 654, 617, 582, 549, 519, 490, 462,
            437, 412, 389, 367, 346, 327, 308, 291, 274, 259, 245, 230,
            218, 206, 194, 183, 173, 163, 154, 146, 137, 129, 122, 115,
            109, 103, 97, 91, 86, 81, 77, 72, 68, 65, 61, 58,
        ];
        assert(t@.map_values(|v: u16| v as int) =~= period_row_10());
        t[i]
    } else if ft == 11 {
        let t: [u16; 60] = [
            1743, 1645, 1552, 1466, 1381, 1304, 1231, 1161, 1096, 1035, 978, 923,
            871, 822, 775, 733, 690, 651, 615, 580, 547, 517, 488, 461,
            435, 411, 387, 366, 345, 325, 307, 290, 273, 258, 244, 230,
            217, 205, 193, 183, 173, 162, 153, 145, 137, 129, 122, 115,
            108, 102, 96, 91, 86, 81, 77, 72, 68, 65, 61, 58,
        ];
        assert(t@.map_values(|v: u16| v as int) =~= period_row_11());
        t[i]
    } else if ft == 12 {
        let t: [u16; 60] = [
            1736, 1639, 1547, 1460, 1376, 1299, 1226, 1157, 1092, 1031, 974, 920,
            868, 819, 773, 730, 687, 649, 612, 578, 545, 515, 486, 459,
            434, 409, 386, 365, 343, 324, 306, 289, 272, 257, 243, 229,
            217, 204, 192, 182, 172, 162, 153, 145, 136, 128, 121, 114,
            108, 102, 96, 91, 86, 81, 77, 72, 67, 64, 60, 57,
        ];
        assert(t@.map_values(|v: u16| v as int) =~= period_row_12());
        t[i]
    } else if ft == 13 {
        let t: [u16; 60] = [
            1730, 1633, 1541, 1455, 1371, 1294, 1222, 1153, 1088, 1028, 971, 916,
            865, 816, 770, 727, 685, 646, 610, 576, 543, 513, 485, 457,
            432, 408, 385, 363, 342, 323, 305, 288, 271, 256, 242, 228,
            216, 204, 192, 181, 171, 161, 152, 144, 136, 128, 121, 114,
            108, 102, 96, 90, 85, 80, 76, 71, 67, 64, 60, 57,
        ];
        assert(t@.map_values(|v: u16| v as int) =~= period_row_13());
        t[i]
    } else if ft == 14 {
        let t: [u16; 60] = [
            1724, 1627, 1536, 1450, 1366, 1290, 1217, 1149, 1084, 1024, 967, 913,
            862, 813, 767, 725, 682, 644, 608, 574, 541, 511, 483, 456,
            431, 406, 383, 362, 341, 322, 304, 287, 270, 255, 241, 227,
            215, 203, 191, 181, 171, 161, 152, 144, 135, 127, 120, 113,
            107, 101, 95, 90, 85, 80, 76, 71, 67, 64, 60, 57,
        ];
        assert(t@.map_values(|v: u16| v as int) =~= period_row_14());
        t[i]
    } else {
        let t: [u16; 60] = [
            1718, 1621, 1530, 1445, 1361, 1285, 1213, 1145, 1080, 1020, 964, 910,
            859, 810, 764, 722, 680, 642, 606, 572, 539, 509, 481, 454,
            429, 405, 382, 361, 340, 321, 303, 286, 269, 254, 240, 226,
            214, 202, 190, 180, 170, 160, 151, 143, 135, 127, 120, 113,
            107, 101, 95, 90, 85, 80, 76, 71, 67, 64, 60, 57,
        ];
        assert(t@.map_values(|v: u16| v as int) =~= period_row_15());
        t[i]
    }
}

fn sine_lookup(ampl: usize, x: usize) -> (r: i8)
    requires
        ampl < 15,
        x < 64,
    ensures
        r as int == sine_entries()[ampl * 64 + x],
{
    let t: [i8; 960] = [
        0, 0, 0, 0, 0, 0, 0, 0, 0, 0, 0, 0, 0, 0, 0, 0,
        0, 0, 0, 0, 0, 0, 0, 0, 1, 1, 1, 1, 1, 1, 1, 1,
        1, 1, 1, 1, 1, 1, 1, 1, 1, 1, 1, 1, 1, 1, 1, 1,
        1, 1, 1, 1, 1, 1, 1, 1, 1, 1, 1, 1, 1, 1, 1, 1,
        0, 0, 0, 0, 0, 0, 0, 0, 0, 0, 0, 0, 0, 0, 1, 1,
        1, 1, 1, 1, 1, 1, 1, 1, 1, 1, 1, 1, 1, 1, 2, 2,
        2, 2, 2, 2, 2, 2, 2, 2, 2, 2, 2, 2, 2, 2, 2, 2,
        2, 2, 2, 2, 2, 2, 2, 2, 2, 2, 2, 2, 2, 2, 2, 2,
        0, 0, 0, 0, 0, 0, 0, 0, 0, 0, 1, 1, 1, 1, 1, 1,
        1, 1, 1, 1, 2, 2, 2, 2, 2, 2, 2, 2, 2, 2, 2, 2,
        2, 3, 3, 3, 3, 3, 3, 3, 3, 3, 3, 3, 3, 3, 3, 3,
        3, 3, 3, 3, 3, 3, 3, 3, 3, 3, 3, 3, 3, 3, 3, 3,
        0, 0, 0, 0, 0, 0, 0, 0, 1, 1, 1, 1, 1, 1, 1, 2,
        2, 2, 2, 2, 2, 2, 2, 2, 3, 3, 3, 3, 3, 3, 3, 3,
        3, 3, 3, 3, 4, 4, 4, 4, 4, 4, 4, 4, 4, 4, 4, 4,
        4, 4, 4, 4, 4, 4, 4, 4, 4, 4, 4, 4, 4, 4, 4, 4,
        0, 0, 0, 0, 0, 0, 1, 1, 1, 1, 1, 1, 2, 2, 2, 2,
        2, 2, 2, 3, 3, 3, 3, 3, 3, 3, 3, 4, 4, 4, 4, 4,
        4, 4, 4, 4, 4, 5, 5, 5, 5, 5, 5, 5, 5, 5, 5, 5,
        5, 5, 5, 5, 5, 5, 5, 5, 5, 5, 5, 5, 5, 5, 5, 5,
        0, 0, 0, 0, 0, 1, 1, 1, 1, 1, 1, 2, 2, 2, 2, 2,
        3, 3, 3, 3, 3, 3, 4, 4, 4, 4, 4, 4, 4, 5, 5, 5,
        5, 5, 5, 5, 5, 5, 6, 6, 6, 6, 6, 6, 6, 6, 6, 6,
        6, 6, 6, 6, 6, 6, 6, 6, 6, 6, 6, 6, 6, 6, 6, 5,
        0, 0, 0, 0, 0, 1, 1, 1, 1, 2, 2, 2, 2, 2, 3, 3,
        3, 3, 3, 4, 4, 4, 4, 4, 5, 5, 5, 5, 5, 5, 6, 6,
        6, 6, 6, 6, 6, 6, 6, 7, 7, 7, 7, 7, 7, 7, 7, 7,
        7, 7, 7, 7, 7, 7, 7, 7, 7, 7, 7, 7, 7, 7, 7, 6,
        0, 0, 0, 0, 1, 1, 1, 1, 2, 2, 2, 2, 3, 3, 3, 3,
        4, 4, 4, 4, 4, 5, 5, 5, 5, 5, 6, 6, 6, 6, 6, 7,
        7, 7, 7, 7, 7, 7, 7, 7, 8, 8, 8, 8, 8, 8, 8, 8,
        8, 8, 8, 8, 8, 8, 8, 8, 8, 8, 8, 8, 8, 8, 7, 7,
        0, 0, 0, 0, 1, 1, 1, 2, 2, 2, 2, 3, 3, 3, 4, 4,
        4, 4, 5, 5, 5, 5, 6, 6, 6, 6, 6, 7, 7, 7, 7, 7,
        7, 8, 8, 8, 8, 8, 8, 8, 9, 9, 9, 9, 9, 9, 9, 9,
        9, 9, 9, 9, 9, 9, 9, 9, 9, 9, 9, 9, 9, 8, 8, 8,
        0, 0, 0, 0, 1, 1, 1, 2, 2, 2, 3, 3, 3, 4, 4, 4,
        5, 5, 5, 5, 6, 6, 6, 6, 7, 7, 7, 7, 8, 8, 8, 8,
        8, 9, 9, 9, 9, 9, 9, 9, 9, 10, 10, 10, 10, 10, 10, 10,
        10, 10, 10, 10, 10, 10, 10, 10, 10, 10, 10, 10, 10, 9, 9, 9,
        0, 0, 0, 1, 1, 1, 2, 2, 2, 3, 3, 3, 4, 4, 4, 5,
        5, 5, 6, 6, 6, 7, 7, 7, 7, 8, 8, 8, 8, 9, 9, 9,
        9, 9, 10, 10, 10, 10, 10, 10, 10, 11, 11, 11, 11, 11, 11, 11,
        11, 11, 11, 11, 11, 11, 11, 11, 11, 11, 11, 11, 10, 10, 10, 10,
        0, 0, 0, 1, 1, 1, 2, 2, 3, 3, 3, 4, 4, 4, 5, 5,
        5, 6, 6, 6, 7, 7, 7, 8, 8, 8, 9, 9, 9, 9, 10, 10,
        10, 10, 10, 11, 11, 11, 11, 11, 11, 11, 12, 12, 12, 12, 12, 12,
        12, 12, 12, 12, 12, 12, 12, 12, 12, 12, 12, 12, 11, 11, 11, 11,
        0, 0, 0, 1, 1, 2, 2, 2, 3, 3, 4, 4, 4, 5, 5, 6,
        6, 6, 7, 7, 7, 8, 8, 8, 9, 9, 9, 10, 10, 10, 10, 11,
        11, 11, 11, 11, 12, 12, 12, 12, 12, 12, 13, 13, 13, 13, 13, 13,
        13, 13, 13, 13, 13, 13, 13, 13, 13, 13, 13, 13, 12, 12, 12, 12,
        0, 0, 0, 1, 1, 2, 2, 3, 3, 4, 4, 4, 5, 5, 6, 6,
        6, 7, 7, 8, 8, 8, 9, 9, 9, 10, 10, 10, 11, 11, 11, 11,
        12, 12, 12, 12, 13, 13, 13, 13, 13, 13, 14, 14, 14, 14, 14, 14,
        14, 14, 14, 14, 14, 14, 14, 14, 14, 14, 14, 13, 13, 13, 13, 13,
        0, 0, 0, 1, 1, 2, 2, 3, 3, 4, 4, 5, 5, 6, 6, 7,
        7, 7, 8, 8, 9, 9, 9, 10, 10, 10, 11, 11, 11, 12, 12, 12,
        13, 13, 13, 13, 13, 14, 14, 14, 14, 14, 14, 15, 15, 15, 15, 15,
        15, 15, 15, 15, 15, 15, 15, 15, 15, 15, 15, 14, 14, 14, 14, 14,
    ];
    assert(t@.map_values(|v: i8| v as int) =~= sine_entries());
    t[ampl * 64 + x]
}

/// Entry `[wave][ampl][x]` of the modulation table: sine, descending ramp
/// or square wave.
pub fn vib_entry(wave: usize, ampl: usize, x: usize) -> (r: i8)
    requires
        wave < 3,
        ampl < 15,
        x < 64,
    ensures
        r as int == vib_value(wave as int, ampl as int, x as int),
{
    if wave == 0 {
        sine_lookup(ampl, x)
    } else if wave == 1 {
        let s: i32 = 2 * ampl as i32 + 3;
        let d: i32 = 63 - 2 * x as i32;
        assert(-1953 <= s * d <= 1953) by (nonlinear_arith)
            requires
                3 <= s <= 31,
                -63 <= d <= 63,
        ;
        let n: i32 = s * d;
        let q: i32 = (n + 2016) / 126 - 16;
        assert(q == n / 126) by (nonlinear_arith)
            requires
                q == (n + 2016) / 126 - 16,
                -2016 <= n,
        ;
        q as i8
    } else if x < 32 {
        (ampl + 1) as i8
    } else {
        -((ampl + 2) as i8)
    }
}

/// The period table holds `period_value` for 16 finetunes by 60 notes.
pub open spec fn period_table_ok(t: Seq<Vec<u16>>) -> bool {
    &&& t.len() == 16
    &&& forall|ft: int| 0 <= ft < 16 ==> (#[trigger] t[ft])@.len() == 60
    &&& forall|ft: int, i: int|
        0 <= ft < 16 && 0 <= i < 60 ==> (#[trigger] t[ft]@[i]) as int == period_value(ft, i)
}

/// The modulation table holds `vib_value` for 3 waves by 15 amplitudes by 64 phases.
pub open spec fn vib_table_ok(t: Seq<Vec<Vec<i8>>>) -> bool {
    &&& t.len() == 3
    &&& forall|w: int| 0 <= w < 3 ==> (#[trigger] t[w])@.len() == 15
    &&& forall|w: int, a: int| 0 <= w < 3 && 0 <= a < 15 ==> (#[trigger] t[w]@[a])@.len() == 64
    &&& forall|w: int, a: int, x: int|
        0 <= w < 3 && 0 <= a < 15 && 0 <= x < 64 ==> (#[trigger] t[w]@[a]@[x]) as int
            == vib_value(w, a, x)
}

/// Builds the period table.
pub fn build_period_table() -> (r: Vec<Vec<u16>>)
    ensures
        period_table_ok(r@),
{
    let mut table: Vec<Vec<u16>> = Vec::new();
    let mut ft: usize = 0;
    while ft < 16
        invariant
            ft <= 16,
            table@.len() == ft,
            forall|f: int| 0 <= f < ft ==> (#[trigger] table@[f])@.len() == 60,
            forall|f: int, i: int|
                0 <= f < ft && 0 <= i < 60 ==> (#[trigger] table@[f]@[i]) as int == period_value(f, i),
        decreases 16 - ft,
    {
        let mut row: Vec<u16> = Vec::new();
        let mut i: usize = 0;
        while i < NOTE_COUNT
            invariant
                ft < 16,
                i <= 60,
                row@.len() == i,
                forall|j: int| 0 <= j < i ==> (#[trigger] row@[j]) as int == period_value(ft as int, j),
            decreases 60 - i,
        {
            row.push(period_lookup(ft, i));
            i += 1;
        }
        table.push(row);
        ft += 1;
    }
    table
}

/// Builds the vibrato / tremolo table.
pub fn build_vib_table() -> (r: Vec<Vec<Vec<i8>>>)
    ensures
        vib_table_ok(r@),
{
    let mut table: Vec<Vec<Vec<i8>>> = Vec::new();
    let mut w: usize = 0;
    while w < 3
        invariant
            w <= 3,
            table@.len() == w,
            forall|v: int| 0 <= v < w ==> (#[trigger] table@[v])@.len() == 15,
            forall|v: int, a: int| 0 <= v < w && 0 <= a < 15 ==> (#[trigger] table@[v]@[a])@.len() == 64,
            forall|v: int, a: int, x: int|
                0 <= v < w && 0 <= a < 15 && 0 <= x < 64 ==> (#[trigger] table@[v]@[a]@[x]) as int
                    == vib_value(v, a, x),
        decreases 3 - w,
    {
        let mut wave: Vec<Vec<i8>> = Vec::new();
        let mut a: usize = 0;
        while a < 15
            invariant
                w < 3,
                a <= 15,
                wave@.len() == a,
                forall|b: int| 0 <= b < a ==> (#[trigger] wave@[b])@.len() == 64,
                forall|b: int, x: int|
                    0 <= b < a && 0 <= x < 64 ==> (#[trigger] wave@[b]@[x]) as int == vib_value(w as int, b, x),
            decreases 15 - a,
        {
            let mut row: Vec<i8> = Vec::new();
            let mut x: usize = 0;
            while x < 64
                invariant
                    w < 3,
                    a < 15,
                    x <= 64,
                    row@.len() == x,
                    forall|y: int| 0 <= y < x ==> (#[trigger] row@[y]) as int == vib_value(w as int, a as int, y),
                decreases 64 - x,
            {
                row.push(vib_entry(w, a, x));
                x += 1;
            }
            wave.push(row);
            a += 1;
        }
        table.push(wave);
        w += 1;
    }
    table
}

/// Each row of the period table is non-increasing: a higher note never has
/// a longer period.
pub proof fn lemma_period_rows_descend()
    ensures
        forall|ft: int, i: int| 0 <= ft < 16 && 0 <= i < 59 ==> #[trigger] period_value(ft, i) >= period_value(ft, i + 1),
{
    assert forall|i: int| 0 <= i < 59 implies #[trigger] period_row_0()[i] >= period_row_0()[i + 1] by {}
    assert forall|i: int| 0 <= i < 59 implies #[trigger] period_row_1()[i] >= period_row_1()[i + 1] by {}
    assert forall|i: int| 0 <= i < 59 implies #[trigger] period_row_2()[i] >= period_row_2()[i + 1] by {}
    assert forall|i: int| 0 <= i < 59 implies #[trigger] period_row_3()[i] >= period_row_3()[i + 1] by {}
    assert forall|i: int| 0 <= i < 59 implies #[trigger] period_row_4()[i] >= period_row_4()[i + 1] by {}
    assert forall|i: int| 0 <= i < 59 implies #[trigger] period_row_5()[i] >= period_row_5()[i + 1] by {}
    assert forall|i: int| 0 <= i < 59 implies #[trigger] period_row_6()[i] >= period_row_6()[i + 1] by {}
    assert forall|i: int| 0 <= i < 59 implies #[trigger] period_row_7()[i] >= period_row_7()[i + 1] by {}
    assert forall|i: int| 0 <= i < 59 implies #[trigger] period_row_8()[i] >= period_row_8()[i + 1] by {}
    assert forall|i: int| 0 <= i < 59 implies #[trigger] period_row_9()[i] >= period_row_9()[i + 1] by {}
    assert forall|i: int| 0 <= i < 59 implies #[trigger] period_row_10()[i] >= period_row_10()[i + 1] by {}
    assert forall|i: int| 0 <= i < 59 implies #[trigger] period_row_11()[i] >= period_row_11()[i + 1] by {}
    assert forall|i: int| 0 <= i < 59 implies #[trigger] period_row_12()[i] >= period_row_12()[i + 1] by {}
    assert forall|i: int| 0 <= i < 59 implies #[trigger] period_row_13()[i] >= period_row_13()[i + 1] by {}
    assert forall|i: int| 0 <= i < 59 implies #[trigger] period_row_14()[i] >= period_row_14()[i + 1] by {}
    assert forall|i: int| 0 <= i < 59 implies #[trigger] period_row_15()[i] >= period_row_15()[i + 1] by {}
}

} // verus!
