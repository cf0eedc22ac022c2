use vstd::prelude::*;

verus! {

pub open spec fn digit_char(d: nat) -> char {
    if d == 0 {
        '0'
    } else if d == 1 {
        '1'
    } else if d == 2 {
        '2'
    } else if d == 3 {
        '3'
    } else if d == 4 {
        '4'
    } else if d == 5 {
        '5'
    } else if d == 6 {
        '6'
    } else if d == 7 {
        '7'
    } else if d == 8 {
        '8'
    } else {
        '9'
    }
}

/// `n` written in decimal, without leading zeros.
pub open spec fn decimal(n: nat) -> Seq<char>
    decreases n,
{
    if n < 10 {
        seq![digit_char(n)]
    } else {
        decimal(n / 10) + seq![digit_char(n % 10)]
    }
}

/// `name`, followed by `.` and the extension when there is one.
pub open spec fn with_extension(name: Seq<char>, extension: Option<Seq<char>>) -> Seq<char> {
    match extension {
        Some(e) => name + seq!['.'] + e,
        None => name,
    }
}

pub open spec fn text_of(o: Option<String>) -> Option<Seq<char>> {
    match o {
        Some(s) => Some(s@),
        None => None,
    }
}

/// What `Path::extension` gives for a path, as text.
pub uninterp spec fn extension_of(path: Seq<char>) -> Option<Seq<char>>;

/// Relies on std::path::Path::extension: the text after the last `.` of the file name,
/// and none where the file name has no `.` or only a leading one.
#[verifier::external_body]
fn path_extension(path: &str) -> (r: Option<String>)
    ensures
        r is Some == extension_of(path@) is Some,
        r is Some ==> r->0@ == extension_of(path@)->0,
        r is Some ==> !r->0@.contains('.'),
        !path@.contains('.') ==> r is None,
{
    std::path::Path::new(path).extension().map(|e| e.to_string_lossy().to_string())
}

/// The extension of a path, as `Path::extension` finds it.
pub fn extension(path: &str) -> (r: Option<String>)
    ensures
        r is Some == extension_of(path@) is Some,
        r is Some ==> r->0@ == extension_of(path@)->0,
        r is Some ==> !r->0@.contains('.'),
        !path@.contains('.') ==> r is None,
{
    path_extension(path)
}

fn digit_str(d: usize) -> (r: &'static str)
    requires
        d < 10,
    ensures
        r@ == seq![digit_char(d as nat)],
{
    let digits = "0123456789";
    proof {
        reveal_strlit("0123456789");
    }
    let r = digits.substring_char(d, d + 1);
    assert(r@ =~= seq![digit_char(d as nat)]);
    r
}

/// `n` written in decimal.
pub fn decimal_string(n: usize) -> (r: String)
    ensures
        r@ == decimal(n as nat),
    decreases n,
{
    if n < 10 {
        digit_str(n).to_string()
    } else {
        let mut s = decimal_string(n / 10);
        s.append(digit_str(n % 10));
        s
    }
}

/// Appends `.` and the extension, if one is given, to a generated name.
pub fn add_extension(name: String, extension: Option<String>) -> (r: String)
    ensures
        r@ == with_extension(name@, text_of(extension)),
{
    match extension {
        Some(e) => {
            let mut r = name;
            let dot = ".";
            proof {
                reveal_strlit(".");
            }
            r.append(dot);
            r.append(e.as_str());
            r
        },
        None => name,
    }
}

/// The generated name, with the extension of `input` kept when `preserve_extension` is set.
pub fn finish_name(output: String, input: &str, preserve_extension: bool) -> (r: String)
    ensures
        r@ == with_extension(
            output@,
            if preserve_extension {
                extension_of(input@)
            } else {
                None
            },
        ),
{
    if preserve_extension {
        let e = path_extension(input);
        add_extension(output, e)
    } else {
        output
    }
}

} // verus!
