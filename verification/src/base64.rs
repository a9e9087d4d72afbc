//! Base64 encoding of the authentication payload, with the standard
//! alphabet and `=` padding.
use vstd::prelude::*;
use vstd::string::*;

verus! {

/// The standard encoding alphabet: the character for one six-bit value.
pub open spec fn b64_char(v: int) -> char {
    if v == 0 {
        'A'
    } else if v == 1 {
        'B'
    } else if v == 2 {
        'C'
    } else if v == 3 {
        'D'
    } else if v == 4 {
        'E'
    } else if v == 5 {
        'F'
    } else if v == 6 {
        'G'
    } else if v == 7 {
        'H'
    } else if v == 8 {
        'I'
    } else if v == 9 {
        'J'
    } else if v == 10 {
        'K'
    } else if v == 11 {
        'L'
    } else if v == 12 {
        'M'
    } else if v == 13 {
        'N'
    } else if v == 14 {
        'O'
    } else if v == 15 {
        'P'
    } else if v == 16 {
        'Q'
    } else if v == 17 {
        'R'
    } else if v == 18 {
        'S'
    } else if v == 19 {
        'T'
    } else if v == 20 {
        'U'
    } else if v == 21 {
        'V'
    } else if v == 22 {
        'W'
    } else if v == 23 {
        'X'
    } else if v == 24 {
        'Y'
    } else if v == 25 {
        'Z'
    } else if v == 26 {
        'a'
    } else if v == 27 {
        'b'
    } else if v == 28 {
        'c'
    } else if v == 29 {
        'd'
    } else if v == 30 {
        'e'
    } else if v == 31 {
        'f'
    } else if v == 32 {
        'g'
    } else if v == 33 {
        'h'
    } else if v == 34 {
        'i'
    } else if v == 35 {
        'j'
    } else if v == 36 {
        'k'
    } else if v == 37 {
        'l'
    } else if v == 38 {
        'm'
    } else if v == 39 {
        'n'
    } else if v == 40 {
        'o'
    } else if v == 41 {
        'p'
    } else if v == 42 {
        'q'
    } else if v == 43 {
        'r'
    } else if v == 44 {
        's'
    } else if v == 45 {
        't'
    } else if v == 46 {
        'u'
    } else if v == 47 {
        'v'
    } else if v == 48 {
        'w'
    } else if v == 49 {
        'x'
    } else if v == 50 {
        'y'
    } else if v == 51 {
        'z'
    } else if v == 52 {
        '0'
    } else if v == 53 {
        '1'
    } else if v == 54 {
        '2'
    } else if v == 55 {
        '3'
    } else if v == 56 {
        '4'
    } else if v == 57 {
        '5'
    } else if v == 58 {
        '6'
    } else if v == 59 {
        '7'
    } else if v == 60 {
        '8'
    } else if v == 61 {
        '9'
    } else if v == 62 {
        '+'
    } else if v == 63 {
        '/'
    } else {
        '='
    }
}

/// Base64 of a byte sequence: each three-byte group becomes four
/// alphabet characters; a trailing group of one or two bytes is padded
/// with `=`.
pub open spec fn b64_encode(bytes: Seq<u8>) -> Seq<char>
    decreases bytes.len(),
{
    if bytes.len() == 0 {
        Seq::<char>::empty()
    } else if bytes.len() == 1 {
        let b0 = bytes[0];
        seq![b64_char((b0 >> 2) as int), b64_char(((b0 & 3) << 4) as int), '=', '=']
    } else if bytes.len() == 2 {
        let b0 = bytes[0];
        let b1 = bytes[1];
        seq![
            b64_char((b0 >> 2) as int),
            b64_char((((b0 & 3) << 4) | (b1 >> 4)) as int),
            b64_char(((b1 & 15) << 2) as int),
            '=',
        ]
    } else {
        let b0 = bytes[0];
        let b1 = bytes[1];
        let b2 = bytes[2];
        seq![
            b64_char((b0 >> 2) as int),
            b64_char((((b0 & 3) << 4) | (b1 >> 4)) as int),
            b64_char((((b1 & 15) << 2) | (b2 >> 6)) as int),
            b64_char((b2 & 63) as int),
        ] + b64_encode(bytes.skip(3))
    }
}

/// The alphabet character of one six-bit value, as a one-character
/// string slice.
fn b64_char_of(v: u8) -> (r: &'static str)
    requires
        v < 64,
    ensures
        r@.len() == 1,
        r@[0] == b64_char(v as int),
{
    proof {
        reveal_strlit("A");
        reveal_strlit("B");
        reveal_strlit("C");
        reveal_strlit("D");
        reveal_strlit("E");
        reveal_strlit("F");
        reveal_strlit("G");
        reveal_strlit("H");
        reveal_strlit("I");
        reveal_strlit("J");
        reveal_strlit("K");
        reveal_strlit("L");
        reveal_strlit("M");
        reveal_strlit("N");
        reveal_strlit("O");
        reveal_strlit("P");
        reveal_strlit("Q");
        reveal_strlit("R");
        reveal_strlit("S");
        reveal_strlit("T");
        reveal_strlit("U");
        reveal_strlit("V");
        reveal_strlit("W");
        reveal_strlit("X");
        reveal_strlit("Y");
        reveal_strlit("Z");
        reveal_strlit("a");
        reveal_strlit("b");
        reveal_strlit("c");
        reveal_strlit("d");
        reveal_strlit("e");
        reveal_strlit("f");
        reveal_strlit("g");
        reveal_strlit("h");
        reveal_strlit("i");
        reveal_strlit("j");
        reveal_strlit("k");
        reveal_strlit("l");
        reveal_strlit("m");
        reveal_strlit("n");
        reveal_strlit("o");
        reveal_strlit("p");
        reveal_strlit("q");
        reveal_strlit("r");
        reveal_strlit("s");
        reveal_strlit("t");
        reveal_strlit("u");
        reveal_strlit("v");
        reveal_strlit("w");
        reveal_strlit("x");
        reveal_strlit("y");
        reveal_strlit("z");
        reveal_strlit("0");
        reveal_strlit("1");
        reveal_strlit("2");
        reveal_strlit("3");
        reveal_strlit("4");
        reveal_strlit("5");
        reveal_strlit("6");
        reveal_strlit("7");
        reveal_strlit("8");
        reveal_strlit("9");
        reveal_strlit("+");
        reveal_strlit("/");
    }
    match v {
        0 => "A",
        1 => "B",
        2 => "C",
        3 => "D",
        4 => "E",
        5 => "F",
        6 => "G",
        7 => "H",
        8 => "I",
        9 => "J",
        10 => "K",
        11 => "L",
        12 => "M",
        13 => "N",
        14 => "O",
        15 => "P",
        16 => "Q",
        17 => "R",
        18 => "S",
        19 => "T",
        20 => "U",
        21 => "V",
        22 => "W",
        23 => "X",
        24 => "Y",
        25 => "Z",
        26 => "a",
        27 => "b",
        28 => "c",
        29 => "d",
        30 => "e",
        31 => "f",
        32 => "g",
        33 => "h",
        34 => "i",
        35 => "j",
        36 => "k",
        37 => "l",
        38 => "m",
        39 => "n",
        40 => "o",
        41 => "p",
        42 => "q",
        43 => "r",
        44 => "s",
        45 => "t",
        46 => "u",
        47 => "v",
        48 => "w",
        49 => "x",
        50 => "y",
        51 => "z",
        52 => "0",
        53 => "1",
        54 => "2",
        55 => "3",
        56 => "4",
        57 => "5",
        58 => "6",
        59 => "7",
        60 => "8",
        61 => "9",
        62 => "+",
        _ => "/",
    }
}

/// Encodes the bytes of `bytes` from position `i` on.
fn encode_tail(bytes: &Vec<u8>, i: usize) -> (r: String)
    requires
        i <= bytes.len(),
    ensures
        r@ == b64_encode(bytes@.skip(i as int)),
    decreases bytes.len() - i,
{
    let len = bytes.len();
    let ghost g = bytes@.skip(i as int);
    if i == len {
        let empty = String::new();
        proof {
            assert(empty@ =~= b64_encode(g));
        }
        empty
    } else if len - i == 1 {
        let b0 = bytes[i];
        proof {
            assert(b0 >> 2 < 64 && (b0 & 3) << 4 < 64) by (bit_vector);
            reveal_strlit("==");
        }
        let mut s = String::new();
        s.append(b64_char_of(b0 >> 2));
        s.append(b64_char_of((b0 & 3) << 4));
        s.append("==");
        proof {
            assert(s@ =~= b64_encode(g));
        }
        s
    } else if len - i == 2 {
        let b0 = bytes[i];
        let b1 = bytes[i + 1];
        proof {
            assert(b0 >> 2 < 64 && ((b0 & 3) << 4) | (b1 >> 4) < 64 && (b1 & 15) << 2 < 64)
                by (bit_vector);
            reveal_strlit("=");
        }
        let mut s = String::new();
        s.append(b64_char_of(b0 >> 2));
        s.append(b64_char_of(((b0 & 3) << 4) | (b1 >> 4)));
        s.append(b64_char_of((b1 & 15) << 2));
        s.append("=");
        proof {
            assert(s@ =~= b64_encode(g));
        }
        s
    } else {
        let b0 = bytes[i];
        let b1 = bytes[i + 1];
        let b2 = bytes[i + 2];
        proof {
            assert(b0 >> 2 < 64 && ((b0 & 3) << 4) | (b1 >> 4) < 64 && ((b1 & 15) << 2) | (b2
                >> 6) < 64 && b2 & 63 < 64) by (bit_vector);
        }
        let mut s = String::new();
        s.append(b64_char_of(b0 >> 2));
        s.append(b64_char_of(((b0 & 3) << 4) | (b1 >> 4)));
        s.append(b64_char_of(((b1 & 15) << 2) | (b2 >> 6)));
        s.append(b64_char_of(b2 & 63));
        let rest = encode_tail(bytes, i + 3);
        s.append(rest.as_str());
        proof {
            assert(g.skip(3) =~= bytes@.skip(i + 3));
            assert(s@ =~= b64_encode(g));
        }
        s
    }
}

/// Base64 of the UTF-8 bytes of `input`.
pub fn encode(input: &str) -> (r: String)
    ensures
        r@ == b64_encode(input.spec_bytes()),
{
    let bytes = input.as_bytes_vec();
    let r = encode_tail(&bytes, 0);
    proof {
        assert(bytes@.skip(0) =~= bytes@);
    }
    r
}

} // verus!
