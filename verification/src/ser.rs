//! JSON text rendering.
//!
//! The page templates embed the envelope as one serialized JSON string, and
//! the data routes send it as the response body. `to_json_text` renders a
//! document; its contract pins every character of the output to `ser`, the
//! mathematical rendering: members in insertion order, strings escaped as
//! JSON asks, integers in decimal.

use vstd::prelude::*;
use vstd::string::StrSliceExecFns;
use vstd::string::StringExecFns;
use crate::json::{JsonV, JsonVal};

verus! {

broadcast use vstd::std_specs::vec::group_vec_axioms, vstd::seq::group_seq_axioms;

/// The character of one decimal digit.
pub open spec fn digit_char(d: nat) -> char {
    ((d + 48) as u8) as char
}

/// The character of one hexadecimal digit, lower case.
pub open spec fn hex_char(d: nat) -> char {
    if d < 10 {
        digit_char(d)
    } else {
        ((d + 87) as u8) as char
    }
}

/// Decimal digits of `n`, most significant first.
pub open spec fn dec_digits(n: nat) -> Seq<char>
    decreases n,
{
    if n < 10 {
        seq![digit_char(n)]
    } else {
        dec_digits(n / 10).push(digit_char(n % 10))
    }
}

/// Decimal rendering of `i`, with a leading minus where negative.
pub open spec fn ser_int(i: i64) -> Seq<char> {
    if i < 0 {
        seq!['-'] + dec_digits((-(i as int)) as nat)
    } else {
        dec_digits(i as nat)
    }
}

/// JSON escape of one character: the named escapes, `\u00..` for the other
/// control characters, and the character itself otherwise.
pub open spec fn escape_char(c: char) -> Seq<char> {
    if c == '"' {
        seq!['\\', '"']
    } else if c == '\\' {
        seq!['\\', '\\']
    } else if c == '\u{08}' {
        seq!['\\', 'b']
    } else if c == '\u{0C}' {
        seq!['\\', 'f']
    } else if c == '\n' {
        seq!['\\', 'n']
    } else if c == '\r' {
        seq!['\\', 'r']
    } else if c == '\t' {
        seq!['\\', 't']
    } else if (c as nat) < 32 {
        seq!['\\', 'u', '0', '0', hex_char((c as nat) / 16), hex_char((c as nat) % 16)]
    } else {
        seq![c]
    }
}

/// JSON escape of a whole string, character by character.
pub open spec fn escape_str(s: Seq<char>) -> Seq<char>
    decreases s.len(),
{
    if s.len() == 0 {
        Seq::empty()
    } else {
        escape_char(s[0]) + escape_str(s.skip(1))
    }
}

/// One object member: quoted escaped key, a colon, the value.
pub open spec fn ser_member(m: (Seq<char>, JsonV)) -> Seq<char>
    decreases m.1, 2int,
{
    seq!['"'] + escape_str(m.0) + seq!['"', ':'] + ser(m.1)
}

/// The members after the first, each preceded by a comma.
pub open spec fn ser_members_rest(ms: Seq<(Seq<char>, JsonV)>) -> Seq<char>
    decreases ms, 0int,
{
    if ms.len() == 0 {
        Seq::empty()
    } else {
        seq![','] + ser_member(ms[0]) + ser_members_rest(ms.skip(1))
    }
}

/// The elements after the first, each preceded by a comma.
pub open spec fn ser_rest(items: Seq<JsonV>) -> Seq<char>
    decreases items, 0int,
{
    if items.len() == 0 {
        Seq::empty()
    } else {
        seq![','] + ser(items[0]) + ser_rest(items.skip(1))
    }
}

/// The JSON text of a document.
pub open spec fn ser(j: JsonV) -> Seq<char>
    decreases j, 1int,
{
    match j {
        JsonV::Null => "null"@,
        JsonV::Bool(b) => if b {
            "true"@
        } else {
            "false"@
        },
        JsonV::Int(i) => ser_int(i),
        JsonV::Str(s) => seq!['"'] + escape_str(s) + seq!['"'],
        JsonV::Arr(items) => seq!['['] + (if items.len() == 0 {
            Seq::<char>::empty()
        } else {
            ser(items[0]) + ser_rest(items.skip(1))
        }) + seq![']'],
        JsonV::Obj(ms) => seq!['{'] + (if ms.len() == 0 {
            Seq::<char>::empty()
        } else {
            ser_member(ms[0]) + ser_members_rest(ms.skip(1))
        }) + seq!['}'],
    }
}

/// Appending an element extends the comma-joined tail by one piece.
proof fn lemma_ser_rest_snoc(s: Seq<JsonV>, x: JsonV)
    ensures
        ser_rest(s.push(x)) == ser_rest(s) + seq![','] + ser(x),
    decreases s.len(),
{
    if s.len() == 0 {
        assert(s.push(x)[0] == x);
        assert(s.push(x).skip(1) =~= Seq::<JsonV>::empty());
        assert(s.push(x).len() == 1);
        assert(ser_rest(s) =~= Seq::<char>::empty());
        assert(ser_rest(s.push(x)) =~= seq![','] + ser(s.push(x)[0]) + ser_rest(s.push(x).skip(1)));
        assert(ser_rest(s.push(x)) =~= ser_rest(s) + seq![','] + ser(x));
    } else {
        assert(s.push(x).skip(1) =~= s.skip(1).push(x));
        lemma_ser_rest_snoc(s.skip(1), x);
        assert(s.push(x)[0] == s[0]);
        assert(ser_rest(s.push(x)) =~= ser_rest(s) + seq![','] + ser(x));
    }
}

/// Appending a member extends the comma-joined tail by one piece.
proof fn lemma_ser_members_snoc(s: Seq<(Seq<char>, JsonV)>, x: (Seq<char>, JsonV))
    ensures
        ser_members_rest(s.push(x)) == ser_members_rest(s) + seq![','] + ser_member(x),
    decreases s.len(),
{
    if s.len() == 0 {
        assert(s.push(x)[0] == x);
        assert(s.push(x).skip(1) =~= Seq::<(Seq<char>, JsonV)>::empty());
        assert(s.push(x).len() == 1);
        assert(ser_members_rest(s) =~= Seq::<char>::empty());
        assert(ser_members_rest(s.push(x)) =~= seq![','] + ser_member(s.push(x)[0])
            + ser_members_rest(s.push(x).skip(1)));
        assert(ser_members_rest(s.push(x)) =~= ser_members_rest(s) + seq![','] + ser_member(x));
    } else {
        assert(s.push(x).skip(1) =~= s.skip(1).push(x));
        lemma_ser_members_snoc(s.skip(1), x);
        assert(s.push(x)[0] == s[0]);
        assert(ser_members_rest(s.push(x)) =~= ser_members_rest(s) + seq![','] + ser_member(x));
    }
}

/// Escaping one more character extends the escaped text by its escape.
proof fn lemma_escape_snoc(s: Seq<char>, c: char)
    ensures
        escape_str(s.push(c)) == escape_str(s) + escape_char(c),
    decreases s.len(),
{
    if s.len() == 0 {
        assert(s.push(c)[0] == c);
        assert(s.push(c).skip(1) =~= Seq::<char>::empty());
        assert(s.push(c).len() == 1);
        assert(escape_str(s) =~= Seq::<char>::empty());
        assert(escape_str(s.push(c)) =~= escape_char(s.push(c)[0]) + escape_str(
            s.push(c).skip(1),
        ));
        assert(escape_str(s.push(c)) =~= escape_str(s) + escape_char(c));
    } else {
        assert(s.push(c).skip(1) =~= s.skip(1).push(c));
        lemma_escape_snoc(s.skip(1), c);
        assert(s.push(c)[0] == s[0]);
        assert(escape_str(s.push(c)) =~= escape_str(s) + escape_char(c));
    }
}

/// One decimal digit as text.
fn digit_str(d: u64) -> (r: &'static str)
    requires
        d < 10,
    ensures
        r@ == seq![digit_char(d as nat)],
{
    let r: &'static str = match d {
        0 => "0",
        1 => "1",
        2 => "2",
        3 => "3",
        4 => "4",
        5 => "5",
        6 => "6",
        7 => "7",
        8 => "8",
        _ => "9",
    };
    proof {
        reveal_strlit("0");
        reveal_strlit("1");
        reveal_strlit("2");
        reveal_strlit("3");
        reveal_strlit("4");
        reveal_strlit("5");
        reveal_strlit("6");
        reveal_strlit("7");
        reveal_strlit("8");
        reveal_strlit("9");
        assert(r@ =~= seq![digit_char(d as nat)]);
    }
    r
}

/// One hexadecimal digit as text, lower case.
fn hex_str(d: u64) -> (r: &'static str)
    requires
        d < 16,
    ensures
        r@ == seq![hex_char(d as nat)],
{
    if d < 10 {
        digit_str(d)
    } else {
        let r: &'static str = match d {
            10 => "a",
            11 => "b",
            12 => "c",
            13 => "d",
            14 => "e",
            _ => "f",
        };
        proof {
            reveal_strlit("a");
            reveal_strlit("b");
            reveal_strlit("c");
            reveal_strlit("d");
            reveal_strlit("e");
            reveal_strlit("f");
            assert(r@ =~= seq![hex_char(d as nat)]);
        }
        r
    }
}

/// Write the decimal digits of `n`.
fn write_u64(n: u64, out: &mut String)
    ensures
        final(out)@ == old(out)@ + dec_digits(n as nat),
    decreases n,
{
    if n < 10 {
        out.append(digit_str(n));
    } else {
        write_u64(n / 10, out);
        out.append(digit_str(n % 10));
        proof {
            assert(out@ =~= old(out)@ + dec_digits(n as nat));
        }
    }
}

/// Write the decimal rendering of `i`.
fn write_i64(i: i64, out: &mut String)
    ensures
        final(out)@ == old(out)@ + ser_int(i),
{
    if i < 0 {
        out.append("-");
        proof {
            reveal_strlit("-");
            assert("-"@ =~= seq!['-']);
        }
        let mag: u64 = if i == i64::MIN {
            9223372036854775808u64
        } else {
            (-i) as u64
        };
        write_u64(mag, out);
        proof {
            assert(out@ =~= old(out)@ + ser_int(i));
        }
    } else {
        write_u64(i as u64, out);
    }
}

/// Write the JSON escape of `s`.
fn write_escaped(s: &str, out: &mut String)
    ensures
        final(out)@ == old(out)@ + escape_str(s@),
{
    let n = s.unicode_len();
    let mut i: usize = 0;
    proof {
        assert(s@.take(0) =~= Seq::<char>::empty());
        assert(escape_str(s@.take(0)) =~= Seq::<char>::empty());
        assert(out@ =~= old(out)@ + escape_str(s@.take(0)));
    }
    while i < n
        invariant
            i <= n,
            n == s@.len(),
            out@ == old(out)@ + escape_str(s@.take(i as int)),
        decreases n - i,
    {
        let c = s.get_char(i);
        if c == '"' {
            out.append("\\\"");
            proof {
                reveal_strlit("\\\"");
                assert("\\\""@ =~= escape_char(c));
            }
        } else if c == '\\' {
            out.append("\\\\");
            proof {
                reveal_strlit("\\\\");
                assert("\\\\"@ =~= escape_char(c));
            }
        } else if c == '\u{08}' {
            out.append("\\b");
            proof {
                reveal_strlit("\\b");
                assert("\\b"@ =~= escape_char(c));
            }
        } else if c == '\u{0C}' {
            out.append("\\f");
            proof {
                reveal_strlit("\\f");
                assert("\\f"@ =~= escape_char(c));
            }
        } else if c == '\n' {
            out.append("\\n");
            proof {
                reveal_strlit("\\n");
                assert("\\n"@ =~= escape_char(c));
            }
        } else if c == '\r' {
            out.append("\\r");
            proof {
                reveal_strlit("\\r");
                assert("\\r"@ =~= escape_char(c));
            }
        } else if c == '\t' {
            out.append("\\t");
            proof {
                reveal_strlit("\\t");
                assert("\\t"@ =~= escape_char(c));
            }
        } else if (c as u32) < 32 {
            out.append("\\u00");
            out.append(hex_str(((c as u32) / 16) as u64));
            out.append(hex_str(((c as u32) % 16) as u64));
            proof {
                reveal_strlit("\\u00");
                assert("\\u00"@ + seq![hex_char((c as nat) / 16)] + seq![hex_char((c as nat) % 16)]
                    =~= escape_char(c));
            }
        } else {
            out.append(s.substring_char(i, i + 1));
            proof {
                assert(s@.subrange(i as int, i as int + 1) =~= seq![c]);
                assert(seq![c] =~= escape_char(c));
            }
        }
        proof {
            lemma_escape_snoc(s@.take(i as int), c);
            assert(s@.take(i as int).push(c) =~= s@.take(i as int + 1));
            assert(out@ =~= old(out)@ + escape_str(s@.take(i as int + 1)));
        }
        i = i + 1;
    }
    proof {
        assert(s@.take(n as int) =~= s@);
    }
}

/// Write the JSON text of `j` onto `out`.
#[verifier::loop_isolation(false)]
fn write_json(j: &JsonVal, out: &mut String)
    ensures
        final(out)@ == old(out)@ + ser(j@),
    decreases j,
{
    match j {
        JsonVal::Null => {
            out.append("null");
        },
        JsonVal::Bool(b) => {
            if *b {
                out.append("true");
            } else {
                out.append("false");
            }
        },
        JsonVal::Int(i) => {
            write_i64(*i, out);
        },
        JsonVal::Str(s) => {
            out.append("\"");
            write_escaped(s.as_str(), out);
            out.append("\"");
            proof {
                reveal_strlit("\"");
                assert("\""@ =~= seq!['"']);
                assert(out@ =~= old(out)@ + ser(j@));
            }
        },
        JsonVal::Arr(items) => {
            let ghost garr = j@->Arr_0;
            out.append("[");
            proof {
                reveal_strlit("[");
                assert("["@ =~= seq!['[']);
                reveal_with_fuel(<JsonVal as View>::view, 2);
                assert(garr.len() == items@.len());
                assert(forall|t: int| 0 <= t < items@.len() ==> garr[t] == #[trigger] items@[t]@);
            }
            let n = items.len();
            if n > 0 {
                proof {
                    assert(garr[0] == items@[0]@);
                }
                write_json(&items[0], out);
                let mut k: usize = 1;
                proof {
                    assert(garr.subrange(1, 1) =~= Seq::<JsonV>::empty());
                    assert(out@ =~= old(out)@ + seq!['['] + ser(garr[0]) + ser_rest(
                        garr.subrange(1, 1),
                    ));
                }
                while k < n
                    invariant
                        1 <= k <= n,
                        n == items@.len(),
                        garr.len() == n,
                        forall|t: int| 0 <= t < n ==> garr[t] == #[trigger] items@[t]@,
                        out@ == old(out)@ + seq!['['] + ser(garr[0]) + ser_rest(
                            garr.subrange(1, k as int),
                        ),
                    decreases n - k,
                {
                    out.append(",");
                    proof {
                        assert(*j == JsonVal::Arr(*items));
                        assert(decreases_to!(*j => *items));
                        assert(decreases_to!(*items => items@));
                        assert(decreases_to!(items@ => items@[k as int]));
                    }
                    write_json(&items[k], out);
                    proof {
                        reveal_strlit(",");
                        assert(","@ =~= seq![',']);
                        lemma_ser_rest_snoc(garr.subrange(1, k as int), garr[k as int]);
                        assert(garr.subrange(1, k as int).push(garr[k as int]) =~= garr.subrange(
                            1,
                            k as int + 1,
                        ));
                        assert(out@ =~= old(out)@ + seq!['['] + ser(garr[0]) + ser_rest(
                            garr.subrange(1, k as int + 1),
                        ));
                    }
                    k = k + 1;
                }
                proof {
                    assert(garr.subrange(1, n as int) =~= garr.skip(1));
                }
            }
            out.append("]");
            proof {
                reveal_strlit("]");
                assert("]"@ =~= seq![']']);
                assert(out@ =~= old(out)@ + ser(j@));
            }
        },
        JsonVal::Obj(members) => {
            let ghost gms = j@->Obj_0;
            out.append("{");
            proof {
                reveal_strlit("{");
                assert("{"@ =~= seq!['{']);
                reveal_with_fuel(<JsonVal as View>::view, 2);
                assert(gms.len() == members@.len());
                assert(forall|t: int| 0 <= t < members@.len() ==> gms[t] == (
                    #[trigger] members@[t].0@,
                    members@[t].1@,
                ));
            }
            let n = members.len();
            if n > 0 {
                out.append("\"");
                write_escaped(members[0].0.as_str(), out);
                out.append("\":");
                write_json(&members[0].1, out);
                proof {
                    reveal_strlit("\"");
                    reveal_strlit("\":");
                    assert("\""@ =~= seq!['"']);
                    assert("\":"@ =~= seq!['"', ':']);
                    assert(gms[0] == (members@[0].0@, members@[0].1@));
                    assert(gms.subrange(1, 1) =~= Seq::<(Seq<char>, JsonV)>::empty());
                    assert(out@ =~= old(out)@ + seq!['{'] + ser_member(gms[0]) + ser_members_rest(
                        gms.subrange(1, 1),
                    ));
                }
                let mut k: usize = 1;
                while k < n
                    invariant
                        1 <= k <= n,
                        n == members@.len(),
                        gms.len() == n,
                        forall|t: int| 0 <= t < n ==> gms[t] == (
                            #[trigger] members@[t].0@,
                            members@[t].1@,
                        ),
                        out@ == old(out)@ + seq!['{'] + ser_member(gms[0]) + ser_members_rest(
                            gms.subrange(1, k as int),
                        ),
                    decreases n - k,
                {
                    out.append(",");
                    out.append("\"");
                    write_escaped(members[k].0.as_str(), out);
                    out.append("\":");
                    proof {
                        assert(*j == JsonVal::Obj(*members));
                        assert(decreases_to!(*j => *members));
                        assert(decreases_to!(*members => members@));
                        assert(decreases_to!(members@ => members@[k as int]));
                        assert(decreases_to!(members@[k as int] => members@[k as int].1));
                    }
                    write_json(&members[k].1, out);
                    proof {
                        reveal_strlit(",");
                        reveal_strlit("\"");
                        reveal_strlit("\":");
                        assert(","@ =~= seq![',']);
                        assert("\""@ =~= seq!['"']);
                        assert("\":"@ =~= seq!['"', ':']);
                        assert(gms[k as int] == (members@[k as int].0@, members@[k as int].1@));
                        lemma_ser_members_snoc(gms.subrange(1, k as int), gms[k as int]);
                        assert(gms.subrange(1, k as int).push(gms[k as int]) =~= gms.subrange(
                            1,
                            k as int + 1,
                        ));
                        assert(out@ =~= old(out)@ + seq!['{'] + ser_member(gms[0])
                            + ser_members_rest(gms.subrange(1, k as int + 1)));
                    }
                    k = k + 1;
                }
                proof {
                    assert(gms.subrange(1, n as int) =~= gms.skip(1));
                }
            }
            out.append("}");
            proof {
                reveal_strlit("}");
                assert("}"@ =~= seq!['}']);
                assert(out@ =~= old(out)@ + ser(j@));
            }
        },
    }
    proof {
        reveal_strlit("null");
        reveal_strlit("true");
        reveal_strlit("false");
        assert(out@ =~= old(out)@ + ser(j@));
    }
}

/// The JSON text of a document.
pub fn to_json_text(j: &JsonVal) -> (r: String)
    ensures
        r@ == ser(j@),
{
    let mut out = String::new();
    write_json(j, &mut out);
    proof {
        assert(out@ =~= ser(j@));
    }
    out
}

} // verus!
