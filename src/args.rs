//! Building the argument vector of one `gh` invocation.
use vstd::prelude::*;

use crate::text::{cat, decimal, to_decimal};

verus! {

/// The characters of each argument.
pub open spec fn arg_chars(v: Vec<String>) -> Seq<Seq<char>> {
    v@.map_values(|a: String| a@)
}

/// Appends one argument.
pub fn push_arg(args: &mut Vec<String>, a: String)
    ensures
        arg_chars(*final(args)) == arg_chars(*old(args)).push(a@),
{
    args.push(a);
    assert(arg_chars(*args) =~= arg_chars(*old(args)).push(a@));
}

/// Appends one argument given as a literal.
pub fn push_lit(args: &mut Vec<String>, a: &str)
    ensures
        arg_chars(*final(args)) == arg_chars(*old(args)).push(a@),
{
    push_arg(args, String::from_str(a));
}

/// The argument `prefix` + value that an optional text parameter adds: one when it is
/// present, none when it is absent.
pub open spec fn opt_arg(prefix: Seq<char>, v: Option<String>) -> Seq<Seq<char>> {
    match v {
        Some(x) => seq![prefix + x@],
        None => seq![],
    }
}

/// The arguments `flag` and the decimal value that an optional number adds.
pub open spec fn opt_num(flag: Seq<char>, v: Option<u32>) -> Seq<Seq<char>> {
    match v {
        Some(n) => seq![flag, decimal(n as nat)],
        None => seq![],
    }
}

/// The switch that an optional yes/no parameter adds: present only when it is set and true.
pub open spec fn opt_switch(flag: Seq<char>, v: Option<bool>) -> Seq<Seq<char>> {
    match v {
        Some(true) => seq![flag],
        _ => seq![],
    }
}

/// Appends `prefix` + value when the parameter is present.
pub fn push_opt(args: &mut Vec<String>, prefix: &str, v: &Option<String>)
    ensures
        arg_chars(*final(args)) == arg_chars(*old(args)) + opt_arg(prefix@, *v),
{
    match v {
        Some(x) => push_arg(args, cat(prefix, x.as_str())),
        None => {},
    }
    assert(arg_chars(*args) =~= arg_chars(*old(args)) + opt_arg(prefix@, *v));
}

/// Appends `flag` and the number when it is present.
pub fn push_num(args: &mut Vec<String>, flag: &str, v: Option<u32>)
    ensures
        arg_chars(*final(args)) == arg_chars(*old(args)) + opt_num(flag@, v),
{
    match v {
        Some(n) => {
            push_lit(args, flag);
            push_arg(args, to_decimal(n as u64));
        },
        None => {},
    }
    assert(arg_chars(*args) =~= arg_chars(*old(args)) + opt_num(flag@, v));
}

/// Appends `flag` when the switch is set and true.
pub fn push_switch(args: &mut Vec<String>, flag: &str, v: Option<bool>)
    ensures
        arg_chars(*final(args)) == arg_chars(*old(args)) + opt_switch(flag@, v),
{
    match v {
        Some(true) => push_lit(args, flag),
        _ => {},
    }
    assert(arg_chars(*args) =~= arg_chars(*old(args)) + opt_switch(flag@, v));
}

} // verus!

verus! {

/// The argument `prefix` + decimal value that an optional number adds.
pub open spec fn opt_num_arg(prefix: Seq<char>, v: Option<u32>) -> Seq<Seq<char>> {
    match v {
        Some(n) => seq![prefix + decimal(n as nat)],
        None => seq![],
    }
}

/// Appends `prefix` + the decimal number when it is present.
pub fn push_opt_num(args: &mut Vec<String>, prefix: &str, v: Option<u32>)
    ensures
        arg_chars(*final(args)) == arg_chars(*old(args)) + opt_num_arg(prefix@, v),
{
    match v {
        Some(n) => {
            let d = to_decimal(n as u64);
            push_arg(args, cat(prefix, d.as_str()));
        },
        None => {},
    }
    assert(arg_chars(*args) =~= arg_chars(*old(args)) + opt_num_arg(prefix@, v));
}

/// The parts one after the other, with `&` between two neighbours.
pub open spec fn joined(parts: Seq<Seq<char>>) -> Seq<char>
    decreases parts.len(),
{
    if parts.len() == 0 {
        seq![]
    } else if parts.len() == 1 {
        parts[0]
    } else {
        joined(parts.drop_last()) + "&"@ + parts.last()
    }
}

/// The query string of a URL: nothing without parameters, else `?` and the joined parameters.
pub open spec fn query_string(parts: Seq<Seq<char>>) -> Seq<char> {
    if parts.len() == 0 {
        seq![]
    } else {
        "?"@ + joined(parts)
    }
}

/// The query string for `parts`.
pub fn query(parts: &Vec<String>) -> (r: String)
    ensures
        r@ == query_string(arg_chars(*parts)),
{
    let ghost p = arg_chars(*parts);
    if parts.len() == 0 {
        return String::new();
    }
    let mut s = String::from_str("?");
    s.append(parts[0].as_str());
    assert(p.take(1) =~= seq![p[0]]);
    let mut i: usize = 1;
    while i < parts.len()
        invariant
            1 <= i <= parts@.len(),
            p == arg_chars(*parts),
            s@ == "?"@ + joined(p.take(i as int)),
        decreases parts@.len() - i,
    {
        s.append("&");
        s.append(parts[i].as_str());
        assert(p.take(i + 1).drop_last() =~= p.take(i as int));
        assert(s@ =~= "?"@ + joined(p.take(i + 1)));
        i += 1;
    }
    assert(p.take(p.len() as int) =~= p);
    s
}

} // verus!
