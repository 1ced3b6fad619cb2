//! The wire format of the motion-JPEG stream: one fixed HTTP response header
//! when a client connects, then one multipart section per frame, each
//! carrying the encoded image preceded by its exact `Content-Length`.

use vstd::prelude::*;
use vstd::string::StrSliceExecFns;
use vstd::string::StringExecFns;

verus! {

/// The decimal digit for one value below ten.
pub open spec fn digit_char(d: nat) -> char {
    if d == 0 {
        '0'
    } else if d == 1 {
        '1'
    } else if d == 2 {
        '2'
    } else if d == 3 {
        '3'
    } else if d == 4 {
        '4'
    } else if d == 5 {
        '5'
    } else if d == 6 {
        '6'
    } else if d == 7 {
        '7'
    } else if d == 8 {
        '8'
    } else {
        '9'
    }
}

/// The usual decimal rendering of a number: most significant digit first, no
/// leading zeroes (a single `'0'` for zero).
pub open spec fn dec_digits(n: nat) -> Seq<char>
    decreases n,
{
    if n < 10 {
        seq![digit_char(n)]
    } else {
        dec_digits(n / 10).push(digit_char(n % 10))
    }
}

fn digit_str(d: usize) -> (s: &'static str)
    requires
        d < 10,
    ensures
        s@ == seq![digit_char(d as nat)],
{
    match d {
        0 => {
            proof {
                reveal_strlit("0");
                assert(("0")@ =~= seq![digit_char(0)]);
            }
            "0"
        },
        1 => {
            proof {
                reveal_strlit("1");
                assert(("1")@ =~= seq![digit_char(1)]);
            }
            "1"
        },
        2 => {
            proof {
                reveal_strlit("2");
                assert(("2")@ =~= seq![digit_char(2)]);
            }
            "2"
        },
        3 => {
            proof {
                reveal_strlit("3");
                assert(("3")@ =~= seq![digit_char(3)]);
            }
            "3"
        },
        4 => {
            proof {
                reveal_strlit("4");
                assert(("4")@ =~= seq![digit_char(4)]);
            }
            "4"
        },
        5 => {
            proof {
                reveal_strlit("5");
                assert(("5")@ =~= seq![digit_char(5)]);
            }
            "5"
        },
        6 => {
            proof {
                reveal_strlit("6");
                assert(("6")@ =~= seq![digit_char(6)]);
            }
            "6"
        },
        7 => {
            proof {
                reveal_strlit("7");
                assert(("7")@ =~= seq![digit_char(7)]);
            }
            "7"
        },
        8 => {
            proof {
                reveal_strlit("8");
                assert(("8")@ =~= seq![digit_char(8)]);
            }
            "8"
        },
        _ => {
            proof {
                reveal_strlit("9");
                assert(("9")@ =~= seq![digit_char(9)]);
            }
            "9"
        },
    }
}

/// Render a length in decimal, exactly as `dec_digits` describes it.
pub fn usize_to_decimal(n: usize) -> (s: String)
    ensures
        s@ == dec_digits(n as nat),
    decreases n,
{
    if n < 10 {
        digit_str(n).to_owned()
    } else {
        let mut s = usize_to_decimal(n / 10);
        s.append(digit_str(n % 10));
        proof {
            assert(dec_digits((n / 10) as nat) + seq![digit_char((n % 10) as nat)] =~= dec_digits(
                (n / 10) as nat,
            ).push(digit_char((n % 10) as nat)));
        }
        s
    }
}

/// The one response header announcing the multipart stream, sent once per
/// connection.
pub open spec fn response_header_chars() -> Seq<char> {
    "HTTP/1.1 200 OK\r\nContent-Type: multipart/x-mixed-replace; boundary=frame\r\n\r\n"@
}

pub fn http_response_header() -> (r: &'static str)
    ensures
        r@ == response_header_chars(),
{
    "HTTP/1.1 200 OK\r\nContent-Type: multipart/x-mixed-replace; boundary=frame\r\n\r\n"
}

/// The section header preceding one encoded image of `len` bytes: boundary,
/// content type, exact content length, blank line.
pub open spec fn part_header_chars(len: nat) -> Seq<char> {
    "--frame\r\nContent-Type: image/jpeg\r\nContent-Length: "@ + dec_digits(len) + "\r\n\r\n"@
}

pub fn part_header(len: usize) -> (s: String)
    ensures
        s@ == part_header_chars(len as nat),
{
    let mut s = "--frame\r\nContent-Type: image/jpeg\r\nContent-Length: ".to_owned();
    let digits = usize_to_decimal(len);
    s.append(digits.as_str());
    s.append("\r\n\r\n");
    proof {
        assert(s@ =~= part_header_chars(len as nat));
    }
    s
}

/// The bytes the connection carries for a piece of header text. All header
/// text here is ASCII, where the byte of each character is the character's
/// code.
pub open spec fn byte_render(s: Seq<char>) -> Seq<u8> {
    Seq::new(s.len(), |i: int| s[i] as u8)
}

/// Write the bytes of a piece of header text to the output buffer.
fn push_text_bytes(out: &mut Vec<u8>, s: &str)
    ensures
        final(out)@ == old(out)@ + byte_render(s@),
{
    let n = s.unicode_len();
    let mut i: usize = 0;
    while i < n
        invariant
            n == s@.len(),
            i <= n,
            out@ == old(out)@ + byte_render(s@).take(i as int),
        decreases n - i,
    {
        let c = s.get_char(i);
        out.push(c as u8);
        proof {
            assert(out@ =~= old(out)@ + byte_render(s@).take(i as int + 1));
        }
        i = i + 1;
    }
    proof {
        assert(old(out)@ + byte_render(s@).take(n as int) =~= old(out)@ + byte_render(s@));
    }
}

/// One complete multipart section for one encoded image: the section header
/// with the image's exact byte length, the image bytes themselves, and the
/// terminating blank line.
pub open spec fn part_bytes(payload: Seq<u8>) -> Seq<u8> {
    byte_render(part_header_chars(payload.len())) + payload + byte_render("\r\n"@)
}

/// Frame one encoded image as a multipart section.
pub fn encode_part(payload: &Vec<u8>) -> (r: Vec<u8>)
    ensures
        r@ == part_bytes(payload@),
{
    let mut r: Vec<u8> = Vec::new();
    let header = part_header(payload.len());
    push_text_bytes(&mut r, header.as_str());
    let mut j: usize = 0;
    while j < payload.len()
        invariant
            j <= payload@.len(),
            r@ == byte_render(part_header_chars(payload@.len())) + payload@.take(j as int),
        decreases payload@.len() - j,
    {
        r.push(payload[j]);
        proof {
            assert(r@ =~= byte_render(part_header_chars(payload@.len())) + payload@.take(
                j as int + 1,
            ));
        }
        j = j + 1;
    }
    proof {
        assert(payload@.take(payload@.len() as int) =~= payload@);
    }
    push_text_bytes(&mut r, "\r\n");
    proof {
        assert(r@ =~= part_bytes(payload@));
    }
    r
}

/// The multipart sections for a run of encoded images, in order.
pub open spec fn parts_bytes(payloads: Seq<Seq<u8>>) -> Seq<u8>
    decreases payloads.len(),
{
    if payloads.len() == 0 {
        Seq::empty()
    } else {
        parts_bytes(payloads.drop_last()) + part_bytes(payloads.last())
    }
}

/// Everything a client that connects and then stays for the given encoded
/// images receives: exactly one response header, then one well-formed
/// multipart section per image, each with the correct `Content-Length`.
pub open spec fn session_bytes(payloads: Seq<Seq<u8>>) -> Seq<u8> {
    byte_render(response_header_chars()) + parts_bytes(payloads)
}

/// The whole transcript of an undisturbed streaming session over the given
/// encoded images.
pub fn session_transcript(payloads: &Vec<Vec<u8>>) -> (r: Vec<u8>)
    ensures
        r@ == session_bytes(payloads@.map_values(|p: Vec<u8>| p@)),
{
    let ghost views = payloads@.map_values(|p: Vec<u8>| p@);
    let mut r: Vec<u8> = Vec::new();
    push_text_bytes(&mut r, http_response_header());
    let mut i: usize = 0;
    proof {
        assert(parts_bytes(views.take(0)) =~= Seq::<u8>::empty());
        assert(r@ =~= byte_render(response_header_chars()) + parts_bytes(views.take(0)));
    }
    while i < payloads.len()
        invariant
            i <= payloads@.len(),
            views == payloads@.map_values(|p: Vec<u8>| p@),
            r@ == byte_render(response_header_chars()) + parts_bytes(views.take(i as int)),
        decreases payloads@.len() - i,
    {
        let mut part = encode_part(&payloads[i]);
        r.append(&mut part);
        proof {
            assert(views.take(i as int + 1).drop_last() =~= views.take(i as int));
            assert(views.take(i as int + 1).last() == views[i as int]);
            assert(r@ =~= byte_render(response_header_chars()) + parts_bytes(
                views.take(i as int + 1),
            ));
        }
        i = i + 1;
    }
    proof {
        assert(views.take(views.len() as int) =~= views);
    }
    r
}

} // verus!
