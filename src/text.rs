use vstd::prelude::*;
use vstd::string::*;

verus! {

/// The decimal digit for `d`, for `d < 10`.
pub open spec fn digit_char(d: nat) -> char {
    if d == 0 {
        '0'
    } else if d == 1 {
        '1'
    } else if d == 2 {
        '2'
    } else if d == 3 {
        '3'
    } else if d == 4 {
        '4'
    } else if d == 5 {
        '5'
    } else if d == 6 {
        '6'
    } else if d == 7 {
        '7'
    } else if d == 8 {
        '8'
    } else {
        '9'
    }
}

/// The decimal notation of `n`, without leading zeros.
pub open spec fn decimal(n: nat) -> Seq<char>
    decreases n,
{
    if n < 10 {
        seq![digit_char(n)]
    } else {
        decimal(n / 10).push(digit_char(n % 10))
    }
}

fn digit_str(d: u128) -> (r: &'static str)
    requires
        d < 10,
    ensures
        r@ == seq![digit_char(d as nat)],
{
    if d == 0 {
        proof { reveal_strlit("0"); }
        "0"
    } else if d == 1 {
        proof { reveal_strlit("1"); }
        "1"
    } else if d == 2 {
        proof { reveal_strlit("2"); }
        "2"
    } else if d == 3 {
        proof { reveal_strlit("3"); }
        "3"
    } else if d == 4 {
        proof { reveal_strlit("4"); }
        "4"
    } else if d == 5 {
        proof { reveal_strlit("5"); }
        "5"
    } else if d == 6 {
        proof { reveal_strlit("6"); }
        "6"
    } else if d == 7 {
        proof { reveal_strlit("7"); }
        "7"
    } else if d == 8 {
        proof { reveal_strlit("8"); }
        "8"
    } else {
        proof { reveal_strlit("9"); }
        "9"
    }
}

/// Renders `n` in decimal.
pub fn decimal_string(n: u128) -> (r: String)
    ensures
        r@ == decimal(n as nat),
    decreases n,
{
    if n < 10 {
        String::from_str(digit_str(n))
    } else {
        let mut s = decimal_string(n / 10);
        s.append(digit_str(n % 10));
        s
    }
}

/// Whether two strings hold the same characters.
pub fn same_text(a: &str, b: &str) -> (r: bool)
    ensures
        r == (a@ == b@),
{
    let x = a.to_owned();
    let y = b.to_owned();
    x == y
}

/// `a` followed by `b`.
pub fn concat(a: &str, b: &str) -> (r: String)
    ensures
        r@ == a@ + b@,
{
    let mut s = String::from_str(a);
    s.append(b);
    s
}

/// How a flag is shown in a detail.
pub open spec fn shown_bool(b: bool) -> Seq<char> {
    if b {
        "true"@
    } else {
        "false"@
    }
}

pub fn show_bool(b: bool) -> (r: String)
    ensures
        r@ == shown_bool(b),
{
    if b {
        String::from_str("true")
    } else {
        String::from_str("false")
    }
}

/// How an optional flag is shown in a detail.
pub open spec fn shown_opt_bool(o: Option<bool>) -> Seq<char> {
    match o {
        Some(b) => "Some("@ + shown_bool(b) + ")"@,
        None => "None"@,
    }
}

pub fn show_opt_bool(o: Option<bool>) -> (r: String)
    ensures
        r@ == shown_opt_bool(o),
{
    match o {
        Some(b) => {
            let mut s = concat("Some(", show_bool(b).as_str());
            s.append(")");
            s
        },
        None => String::from_str("None"),
    }
}

/// The quoted and escaped form in which std's `Debug` shows a text.
pub uninterp spec fn debug_text(s: Seq<char>) -> Seq<char>;

/// Relies on `<str as Debug>::fmt`: the text in double quotes with quotes,
/// backslashes and control characters escaped, a function of its characters
/// alone.
#[verifier::external_body]
pub(crate) fn debug_quoted(s: &str) -> (r: String)
    ensures
        r@ == debug_text(s@),
{
    format!("{s:?}")
}

/// How an optional text is shown in a detail.
pub open spec fn shown_opt_text(o: Option<Seq<char>>) -> Seq<char> {
    match o {
        Some(t) => "Some("@ + debug_text(t) + ")"@,
        None => "None"@,
    }
}

pub fn show_opt_text(o: Option<&String>) -> (r: String)
    ensures
        r@ == shown_opt_text(
            match o {
                Some(t) => Some(t@),
                None => None,
            },
        ),
{
    match o {
        Some(t) => {
            let mut s = concat("Some(", debug_quoted(t.as_str()).as_str());
            s.append(")");
            s
        },
        None => String::from_str("None"),
    }
}

} // verus!
