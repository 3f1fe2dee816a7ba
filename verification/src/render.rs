//! `Debug`-style text for the client's types, built the way std's `debug_struct` lays it out:
//! `Name { field: value, field: value }`.
use vstd::prelude::*;
use vstd::string::*;

use crate::text::{debug_quoted, decimal, push_decimal, str_debug_text};
use crate::types::{opt_view, pairs_view};

verus! {

/// `name: value` items separated by `, `.
pub open spec fn fields_text(fields: Seq<(Seq<char>, Seq<char>)>) -> Seq<char>
    decreases fields.len(),
{
    if fields.len() == 0 {
        Seq::empty()
    } else if fields.len() == 1 {
        fields[0].0 + ": "@ + fields[0].1
    } else {
        fields_text(fields.drop_last()) + ", "@ + fields.last().0 + ": "@ + fields.last().1
    }
}

/// `Name { a: x, b: y }`, or `Name` alone when there are no fields.
pub open spec fn struct_text(name: Seq<char>, fields: Seq<(Seq<char>, Seq<char>)>) -> Seq<char> {
    if fields.len() == 0 {
        name
    } else {
        name + " { "@ + fields_text(fields) + " }"@
    }
}

/// The text of `true` or `false`.
pub open spec fn bool_text(b: bool) -> Seq<char> {
    if b {
        "true"@
    } else {
        "false"@
    }
}

/// The decimal numeral of an integer, with `-` for a negative one.
pub open spec fn signed_decimal(i: int) -> Seq<char> {
    if i < 0 {
        "-"@ + decimal((-i) as nat)
    } else {
        decimal(i as nat)
    }
}

/// `Some(x)` or `None`.
pub open spec fn option_text(o: Option<Seq<char>>) -> Seq<char> {
    match o {
        Some(x) => "Some("@ + x + ")"@,
        None => "None"@,
    }
}

/// The `Debug` text of an optional string.
pub open spec fn opt_str_text(o: Option<Seq<char>>) -> Seq<char> {
    option_text(
        match o {
            Some(s) => Some(str_debug_text(s)),
            None => None,
        },
    )
}

/// The `Debug` text of an optional flag.
pub open spec fn opt_bool_text(o: Option<bool>) -> Seq<char> {
    option_text(
        match o {
            Some(b) => Some(bool_text(b)),
            None => None,
        },
    )
}

/// The `Debug` text of an optional number.
pub open spec fn opt_num_text(o: Option<int>) -> Seq<char> {
    option_text(
        match o {
            Some(n) => Some(signed_decimal(n)),
            None => None,
        },
    )
}

/// The `Debug` text of an optional `ttlSeconds`.
pub open spec fn opt_ttl_text(o: Option<Option<u32>>) -> Seq<char> {
    option_text(
        match o {
            Some(t) => Some(
                opt_num_text(
                    match t {
                        Some(n) => Some(n as int),
                        None => None,
                    },
                ),
            ),
            None => None,
        },
    )
}

/// Assembles `Name { a: x, b: y }` from rendered fields.
pub fn struct_string(name: &str, fields: &Vec<(String, String)>) -> (r: String)
    ensures
        r@ == struct_text(name@, pairs_view(fields@)),
{
    let ghost fs = pairs_view(fields@);
    let mut r = name.to_owned();
    if fields.len() == 0 {
        return r;
    }
    r.append(" { ");
    let mut i: usize = 0;
    while i < fields.len()
        invariant
            fs == pairs_view(fields@),
            fields@.len() > 0,
            i <= fields@.len(),
            r@ == name@ + " { "@ + fields_text(fs.take(i as int)),
        decreases fields.len() - i,
    {
        if i > 0 {
            r.append(", ");
        }
        r.append(fields[i].0.as_str());
        r.append(": ");
        r.append(fields[i].1.as_str());
        proof {
            let t = fs.take(i + 1);
            assert(t.drop_last() =~= fs.take(i as int));
            assert(t.last() == fs[i as int]);
            if i == 0 {
                assert(fs.take(0) =~= Seq::<(Seq<char>, Seq<char>)>::empty());
            }
        }
        i = i + 1;
    }
    assert(fs.take(i as int) =~= fs);
    r.append(" }");
    r
}

/// The text of a flag.
pub fn bool_string(b: bool) -> (r: String)
    ensures
        r@ == bool_text(b),
{
    if b {
        "true".to_owned()
    } else {
        "false".to_owned()
    }
}

/// The decimal numeral of a signed number.
pub fn signed_string(i: i64) -> (r: String)
    ensures
        r@ == signed_decimal(i as int),
{
    if i < 0 {
        let mut r = "-".to_owned();
        let magnitude: u64 = if i == i64::MIN {
            9_223_372_036_854_775_808u64
        } else {
            (-i) as u64
        };
        push_decimal(&mut r, magnitude);
        r
    } else {
        let mut r = String::new();
        push_decimal(&mut r, i as u64);
        r
    }
}

fn some_string(inner: &str) -> (r: String)
    ensures
        r@ == "Some("@ + inner@ + ")"@,
{
    let mut r = "Some(".to_owned();
    r.append(inner);
    r.append(")");
    r
}

/// The `Debug` text of an optional string.
pub fn opt_str_string(o: &Option<String>) -> (r: String)
    ensures
        r@ == opt_str_text(opt_view(*o)),
{
    match o {
        Some(s) => some_string(debug_quoted(s.as_str()).as_str()),
        None => "None".to_owned(),
    }
}

/// The `Debug` text of an optional flag.
pub fn opt_bool_string(o: Option<bool>) -> (r: String)
    ensures
        r@ == opt_bool_text(o),
{
    match o {
        Some(b) => some_string(bool_string(b).as_str()),
        None => "None".to_owned(),
    }
}

/// The `Debug` text of an optional number.
pub fn opt_num_string(o: Option<i64>) -> (r: String)
    ensures
        r@ == opt_num_text(
            match o {
                Some(n) => Some(n as int),
                None => None,
            },
        ),
{
    match o {
        Some(n) => some_string(signed_string(n).as_str()),
        None => "None".to_owned(),
    }
}

/// The `Debug` text of an optional `ttlSeconds`.
pub fn opt_ttl_string(o: Option<Option<u32>>) -> (r: String)
    ensures
        r@ == opt_ttl_text(o),
{
    match o {
        Some(t) => {
            let inner = opt_num_string(
                match t {
                    Some(n) => Some(n as i64),
                    None => None,
                },
            );
            some_string(inner.as_str())
        },
        None => "None".to_owned(),
    }
}

/// The `Debug` text of a string.
pub fn quoted_string(s: &str) -> (r: String)
    ensures
        r@ == str_debug_text(s@),
{
    debug_quoted(s)
}

} // verus!
