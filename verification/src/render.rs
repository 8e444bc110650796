//! Rendering a JSON tree to its compact text.
//!
//! The output carries no spacing, members keep their order, and strings
//! escape the quote, the backslash and control characters; every other
//! character stands as itself.

use vstd::prelude::*;

use crate::json::{JVal, JsonValue};
use crate::text::{dec_int, i64_to_string, spec_digit};

verus! {

/// The hexadecimal digit for a value below sixteen, lower case.
pub open spec fn hex_digit(d: int) -> char {
    if d < 10 {
        spec_digit(d)
    } else if d == 10 {
        'a'
    } else if d == 11 {
        'b'
    } else if d == 12 {
        'c'
    } else if d == 13 {
        'd'
    } else if d == 14 {
        'e'
    } else {
        'f'
    }
}

fn hex_char(d: u32) -> (c: char)
    requires
        d < 16,
    ensures
        c == hex_digit(d as int),
{
    if d == 0 {
        '0'
    } else if d == 1 {
        '1'
    } else if d == 2 {
        '2'
    } else if d == 3 {
        '3'
    } else if d == 4 {
        '4'
    } else if d == 5 {
        '5'
    } else if d == 6 {
        '6'
    } else if d == 7 {
        '7'
    } else if d == 8 {
        '8'
    } else if d == 9 {
        '9'
    } else if d == 10 {
        'a'
    } else if d == 11 {
        'b'
    } else if d == 12 {
        'c'
    } else if d == 13 {
        'd'
    } else if d == 14 {
        'e'
    } else {
        'f'
    }
}

/// How one character stands inside a rendered JSON string.
pub open spec fn esc_char(c: char) -> Seq<char> {
    if c == '"' {
        seq!['\\', '"']
    } else if c == '\\' {
        seq!['\\', '\\']
    } else if (c as u32) < 32 {
        seq!['\\', 'u', '0', '0', hex_digit(c as u32 as int / 16), hex_digit(c as u32 as int % 16)]
    } else {
        seq![c]
    }
}

/// How a text stands inside a rendered JSON string.
pub open spec fn esc_text(s: Seq<char>) -> Seq<char>
    decreases s,
{
    if s.len() == 0 {
        Seq::empty()
    } else {
        esc_char(s[0]) + esc_text(s.drop_first())
    }
}

proof fn lemma_esc_text_push(s: Seq<char>, c: char)
    ensures
        esc_text(s.push(c)) == esc_text(s) + esc_char(c),
    decreases s,
{
    if s.len() == 0 {
        reveal_with_fuel(esc_text, 2);
        assert(s.push(c)[0] == c);
        assert(s.push(c).drop_first() =~= Seq::<char>::empty());
        assert(esc_text(s.push(c)) =~= esc_text(s) + esc_char(c));
    } else {
        assert(s.push(c)[0] == s[0]);
        assert(s.push(c).drop_first() =~= s.drop_first().push(c));
        lemma_esc_text_push(s.drop_first(), c);
        assert(esc_text(s.push(c)) == esc_char(s[0]) + esc_text(s.drop_first().push(c)));
        assert(esc_char(s[0]) + (esc_text(s.drop_first()) + esc_char(c)) =~= (esc_char(s[0])
            + esc_text(s.drop_first())) + esc_char(c));
        assert(esc_text(s) == esc_char(s[0]) + esc_text(s.drop_first()));
    }
}

/// The size of a JSON tree: one for each node.
pub open spec fn jv_size(t: JVal) -> nat
    decreases t,
{
    match t {
        JVal::Arr(vs) => 1 + jvs_size(vs),
        JVal::Obj(ps) => 1 + jps_size(ps),
        _ => 1,
    }
}

/// The summed size of a sequence of JSON trees.
pub open spec fn jvs_size(vs: Seq<JVal>) -> nat
    decreases vs,
{
    if vs.len() == 0 {
        0
    } else {
        jv_size(vs[0]) + jvs_size(vs.drop_first())
    }
}

/// The summed size of the values among object members.
pub open spec fn jps_size(ps: Seq<(Seq<char>, JVal)>) -> nat
    decreases ps,
{
    if ps.len() == 0 {
        0
    } else {
        jv_size(ps[0].1) + jps_size(ps.drop_first())
    }
}

proof fn lemma_jvs_size_elem(vs: Seq<JVal>, i: int)
    requires
        0 <= i < vs.len(),
    ensures
        jv_size(vs[i]) <= jvs_size(vs),
    decreases vs,
{
    if i > 0 {
        lemma_jvs_size_elem(vs.drop_first(), i - 1);
        assert(vs.drop_first()[i - 1] == vs[i]);
    }
}

proof fn lemma_jps_size_elem(ps: Seq<(Seq<char>, JVal)>, i: int)
    requires
        0 <= i < ps.len(),
    ensures
        jv_size(ps[i].1) <= jps_size(ps),
    decreases ps,
{
    if i > 0 {
        lemma_jps_size_elem(ps.drop_first(), i - 1);
        assert(ps.drop_first()[i - 1] == ps[i]);
    }
}

/// The text of one JSON tree.
pub open spec fn jv_text(t: JVal) -> Seq<char>
    decreases t,
{
    match t {
        JVal::Null => "null"@,
        JVal::Bool(b) => if b {
            "true"@
        } else {
            "false"@
        },
        JVal::Int(i) => dec_int(i as int),
        JVal::Num(s) => s,
        JVal::Str(s) => seq!['"'] + esc_text(s) + seq!['"'],
        JVal::Arr(vs) => seq!['['] + items_text(vs) + seq![']'],
        JVal::Obj(ps) => seq!['{'] + members_text(ps) + seq!['}'],
    }
}

/// The comma-separated texts of the items of an array.
pub open spec fn items_text(vs: Seq<JVal>) -> Seq<char>
    decreases vs,
{
    if vs.len() == 0 {
        Seq::empty()
    } else {
        jv_text(vs[0]) + rest_items_text(vs.drop_first())
    }
}

/// The items of an array after the first, each preceded by a comma.
pub open spec fn rest_items_text(vs: Seq<JVal>) -> Seq<char>
    decreases vs,
{
    if vs.len() == 0 {
        Seq::empty()
    } else {
        seq![','] + jv_text(vs[0]) + rest_items_text(vs.drop_first())
    }
}

/// The text of one object member: quoted key, colon, value.
pub open spec fn member_text(p: (Seq<char>, JVal)) -> Seq<char>
    decreases p,
{
    seq!['"'] + esc_text(p.0) + seq!['"', ':'] + jv_text(p.1)
}

/// The comma-separated texts of the members of an object.
pub open spec fn members_text(ps: Seq<(Seq<char>, JVal)>) -> Seq<char>
    decreases ps,
{
    if ps.len() == 0 {
        Seq::empty()
    } else {
        member_text(ps[0]) + rest_members_text(ps.drop_first())
    }
}

/// The members of an object after the first, each preceded by a comma.
pub open spec fn rest_members_text(ps: Seq<(Seq<char>, JVal)>) -> Seq<char>
    decreases ps,
{
    if ps.len() == 0 {
        Seq::empty()
    } else {
        seq![','] + member_text(ps[0]) + rest_members_text(ps.drop_first())
    }
}

proof fn lemma_rest_items_push(vs: Seq<JVal>, x: JVal)
    ensures
        rest_items_text(vs.push(x)) == rest_items_text(vs) + seq![','] + jv_text(x),
    decreases vs,
{
    if vs.len() == 0 {
        reveal_with_fuel(rest_items_text, 2);
        assert(vs.push(x)[0] == x);
        assert(vs.push(x).drop_first() =~= Seq::<JVal>::empty());
        assert(rest_items_text(vs.push(x)) =~= rest_items_text(vs) + seq![','] + jv_text(x));
    } else {
        assert(vs.push(x)[0] == vs[0]);
        assert(vs.push(x).drop_first() =~= vs.drop_first().push(x));
        lemma_rest_items_push(vs.drop_first(), x);
        assert(rest_items_text(vs.push(x)) == seq![','] + jv_text(vs[0]) + rest_items_text(
            vs.drop_first().push(x),
        ));
        assert(seq![','] + jv_text(vs[0]) + (rest_items_text(vs.drop_first()) + seq![','] + jv_text(
            x,
        )) =~= (seq![','] + jv_text(vs[0]) + rest_items_text(vs.drop_first())) + seq![','] + jv_text(
            x,
        ));
        assert(rest_items_text(vs.push(x)) =~= rest_items_text(vs) + seq![','] + jv_text(x));
    }
}

proof fn lemma_items_push(vs: Seq<JVal>, x: JVal)
    ensures
        items_text(vs.push(x)) == if vs.len() == 0 {
            jv_text(x)
        } else {
            items_text(vs) + seq![','] + jv_text(x)
        },
{
    if vs.len() == 0 {
        reveal_with_fuel(rest_items_text, 2);
        assert(vs.push(x)[0] == x);
        assert(vs.push(x).drop_first() =~= Seq::<JVal>::empty());
        assert(items_text(vs.push(x)) =~= jv_text(x));
    } else {
        assert(vs.push(x)[0] == vs[0]);
        assert(vs.push(x).drop_first() =~= vs.drop_first().push(x));
        lemma_rest_items_push(vs.drop_first(), x);
        assert(items_text(vs.push(x)) == jv_text(vs[0]) + rest_items_text(
            vs.drop_first().push(x),
        ));
        assert(jv_text(vs[0]) + (rest_items_text(vs.drop_first()) + seq![','] + jv_text(x)) =~= (
        jv_text(vs[0]) + rest_items_text(vs.drop_first())) + seq![','] + jv_text(x));
        assert(items_text(vs.push(x)) =~= items_text(vs) + seq![','] + jv_text(x));
    }
}

proof fn lemma_rest_members_push(ps: Seq<(Seq<char>, JVal)>, x: (Seq<char>, JVal))
    ensures
        rest_members_text(ps.push(x)) == rest_members_text(ps) + seq![','] + member_text(x),
    decreases ps,
{
    if ps.len() == 0 {
        reveal_with_fuel(rest_members_text, 2);
        assert(ps.push(x)[0] == x);
        assert(ps.push(x).drop_first() =~= Seq::<(Seq<char>, JVal)>::empty());
        assert(rest_members_text(ps.push(x)) =~= rest_members_text(ps) + seq![','] + member_text(
            x,
        ));
    } else {
        assert(ps.push(x)[0] == ps[0]);
        assert(ps.push(x).drop_first() =~= ps.drop_first().push(x));
        lemma_rest_members_push(ps.drop_first(), x);
        assert(rest_members_text(ps.push(x)) =~= rest_members_text(ps) + seq![','] + member_text(
            x,
        ));
    }
}

proof fn lemma_members_push(ps: Seq<(Seq<char>, JVal)>, x: (Seq<char>, JVal))
    ensures
        members_text(ps.push(x)) == if ps.len() == 0 {
            member_text(x)
        } else {
            members_text(ps) + seq![','] + member_text(x)
        },
{
    if ps.len() == 0 {
        reveal_with_fuel(rest_members_text, 2);
        assert(ps.push(x)[0] == x);
        assert(ps.push(x).drop_first() =~= Seq::<(Seq<char>, JVal)>::empty());
        assert(members_text(ps.push(x)) =~= member_text(x));
    } else {
        assert(ps.push(x)[0] == ps[0]);
        assert(ps.push(x).drop_first() =~= ps.drop_first().push(x));
        lemma_rest_members_push(ps.drop_first(), x);
        assert(members_text(ps.push(x)) == member_text(ps[0]) + rest_members_text(
            ps.drop_first().push(x),
        ));
        assert(member_text(ps[0]) + (rest_members_text(ps.drop_first()) + seq![','] + member_text(
            x,
        )) =~= (member_text(ps[0]) + rest_members_text(ps.drop_first())) + seq![','] + member_text(
            x,
        ));
        assert(members_text(ps.push(x)) =~= members_text(ps) + seq![','] + member_text(x));
    }
}

fn push_escaped(out: &mut String, c: char)
    ensures
        final(out)@ == old(out)@ + esc_char(c),
{
    if c == '"' {
        out.push('\\');
        out.push('"');
        assert(final(out)@ =~= old(out)@ + esc_char(c));
    } else if c == '\\' {
        out.push('\\');
        out.push('\\');
        assert(final(out)@ =~= old(out)@ + esc_char(c));
    } else {
        let u = c as u32;
        if u < 32 {
            out.push('\\');
            out.push('u');
            out.push('0');
            out.push('0');
            out.push(hex_char(u / 16));
            out.push(hex_char(u % 16));
            assert(final(out)@ =~= old(out)@ + esc_char(c));
        } else {
            out.push(c);
            assert(final(out)@ =~= old(out)@ + esc_char(c));
        }
    }
}

/// Renders a text as a quoted, escaped JSON string.
fn render_text(s: &str, out: &mut String)
    ensures
        final(out)@ == old(out)@ + seq!['"'] + esc_text(s@) + seq!['"'],
{
    let n = s.unicode_len();
    out.push('"');
    let mut i: usize = 0;
    while i < n
        invariant
            n == s@.len(),
            i <= n,
            out@ == old(out)@ + seq!['"'] + esc_text(s@.take(i as int)),
        decreases n - i,
    {
        let c = s.get_char(i);
        push_escaped(out, c);
        proof {
            assert(s@.take(i as int).push(s@[i as int]) =~= s@.take(i as int + 1));
            lemma_esc_text_push(s@.take(i as int), s@[i as int]);
        }
        i += 1;
    }
    out.push('"');
    proof {
        assert(s@.take(n as int) =~= s@);
    }
}

/// Renders a JSON tree as its compact text.
pub fn render_json(t: &JsonValue) -> (r: String)
    ensures
        r@ == jv_text(t@),
    decreases jv_size(t@),
{
    match t {
        JsonValue::Null => String::from_str("null"),
        JsonValue::Bool(b) => {
            if *b {
                String::from_str("true")
            } else {
                String::from_str("false")
            }
        },
        JsonValue::Int(i) => i64_to_string(*i),
        JsonValue::Num(s) => s.clone(),
        JsonValue::Str(s) => {
            let mut out = String::new();
            render_text(s.as_str(), &mut out);
            assert(out@ =~= jv_text(t@));
            out
        },
        JsonValue::Arr(vs) => {
            let mut out = String::new();
            out.push('[');
            let n = vs.len();
            let mut i: usize = 0;
            proof {
                crate::json::lemma_jvals_of_len(vs@);
                assert(out@ =~= seq!['['] + items_text(crate::json::jvals_of(vs@).take(0)));
            }
            while i < n
                invariant
                    n == vs.len(),
                    i <= n,
                    out@ == seq!['['] + items_text(crate::json::jvals_of(vs@).take(i as int)),
                    crate::json::jvals_of(vs@).len() == vs@.len(),
                    t@ == JVal::Arr(crate::json::jvals_of(vs@)),
                decreases n - i,

            {
                proof {
                    crate::json::lemma_jvals_of_index(vs@, i as int);
                }
                if i > 0 {
                    out.push(',');
                }
                proof {
                    crate::json::lemma_jvals_of_index(vs@, i as int);
                    lemma_jvs_size_elem(crate::json::jvals_of(vs@), i as int);
                }
                let item = render_json(&vs[i]);
                out.append(item.as_str());
                proof {
                    let prev = crate::json::jvals_of(vs@).take(i as int);
                    lemma_items_push(prev, crate::json::jvals_of(vs@)[i as int]);
                    assert(prev.push(crate::json::jvals_of(vs@)[i as int]) =~= crate::json::jvals_of(
                        vs@,
                    ).take(i as int + 1));
                    assert(out@ =~= seq!['['] + items_text(
                        crate::json::jvals_of(vs@).take(i as int + 1),
                    ));
                }
                i += 1;
            }
            out.push(']');
            proof {
                assert(crate::json::jvals_of(vs@).take(n as int) =~= crate::json::jvals_of(vs@));
                assert(out@ =~= jv_text(t@));
            }
            out
        },
        JsonValue::Obj(ps) => {
            let mut out = String::new();
            out.push('{');
            let n = ps.len();
            let mut i: usize = 0;
            proof {
                crate::json::lemma_jpairs_of_len(ps@);
                assert(out@ =~= seq!['{'] + members_text(crate::json::jpairs_of(ps@).take(0)));
            }
            while i < n
                invariant
                    n == ps.len(),
                    i <= n,
                    out@ == seq!['{'] + members_text(crate::json::jpairs_of(ps@).take(i as int)),
                    crate::json::jpairs_of(ps@).len() == ps@.len(),
                    t@ == JVal::Obj(crate::json::jpairs_of(ps@)),
                decreases n - i,
            {
                proof {
                    crate::json::lemma_jpairs_of_index(ps@, i as int);
                }
                if i > 0 {
                    out.push(',');
                }
                render_text(ps[i].0.as_str(), &mut out);
                out.push(':');
                proof {
                    crate::json::lemma_jpairs_of_index(ps@, i as int);
                    lemma_jps_size_elem(crate::json::jpairs_of(ps@), i as int);
                }
                let item = render_json(&ps[i].1);
                out.append(item.as_str());
                proof {
                    let prev = crate::json::jpairs_of(ps@).take(i as int);
                    lemma_members_push(prev, crate::json::jpairs_of(ps@)[i as int]);
                    assert(prev.push(crate::json::jpairs_of(ps@)[i as int])
                        =~= crate::json::jpairs_of(ps@).take(i as int + 1));
                    assert(out@ =~= seq!['{'] + members_text(
                        crate::json::jpairs_of(ps@).take(i as int + 1),
                    ));
                }
                i += 1;
            }
            out.push('}');
            proof {
                assert(crate::json::jpairs_of(ps@).take(n as int) =~= crate::json::jpairs_of(ps@));
                assert(out@ =~= jv_text(t@));
            }
            out
        },
    }
}

} // verus!
