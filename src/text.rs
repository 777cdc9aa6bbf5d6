use vstd::prelude::*;

verus! {

/// The marker that opens the line of a file.
pub open spec fn file_marker() -> Seq<char> {
    "📄 "@
}

/// The marker that opens the line of a folder.
pub open spec fn folder_marker() -> Seq<char> {
    "📂 "@
}

/// The text of one decimal digit `d`, for `d < 10`.
pub open spec fn digit_text(d: nat) -> Seq<char> {
    if d == 0 {
        "0"@
    } else if d == 1 {
        "1"@
    } else if d == 2 {
        "2"@
    } else if d == 3 {
        "3"@
    } else if d == 4 {
        "4"@
    } else if d == 5 {
        "5"@
    } else if d == 6 {
        "6"@
    } else if d == 7 {
        "7"@
    } else if d == 8 {
        "8"@
    } else {
        "9"@
    }
}

/// `n` written in decimal, most significant digit first, without leading zeros.
pub open spec fn decimal(n: nat) -> Seq<char>
    decreases n,
{
    if n < 10 {
        digit_text(n)
    } else {
        decimal(n / 10) + digit_text(n % 10)
    }
}

/// `level` groups of two spaces.
pub open spec fn indentation(level: nat) -> Seq<char>
    decreases level,
{
    if level == 0 {
        Seq::empty()
    } else {
        indentation((level - 1) as nat) + "  "@
    }
}

/// The display line of a file: indentation, marker, name and size in bytes.
pub open spec fn file_line(level: nat, name: Seq<char>, size: nat) -> Seq<char> {
    indentation(level) + file_marker() + name + " ("@ + decimal(size) + " bytes)"@
}

/// The display line of a folder: indentation, marker and name.
pub open spec fn folder_line(level: nat, name: Seq<char>) -> Seq<char> {
    indentation(level) + folder_marker() + name
}

fn digit_str(d: usize) -> (r: &'static str)
    requires
        d < 10,
    ensures
        r@ == digit_text(d as nat),
{
    if d == 0 {
        "0"
    } else if d == 1 {
        "1"
    } else if d == 2 {
        "2"
    } else if d == 3 {
        "3"
    } else if d == 4 {
        "4"
    } else if d == 5 {
        "5"
    } else if d == 6 {
        "6"
    } else if d == 7 {
        "7"
    } else if d == 8 {
        "8"
    } else {
        "9"
    }
}

/// Writes `n` in decimal.
pub fn decimal_string(n: usize) -> (r: String)
    ensures
        r@ == decimal(n as nat),
    decreases n,
{
    if n < 10 {
        String::from_str(digit_str(n))
    } else {
        let mut s = decimal_string(n / 10);
        s.append(digit_str(n % 10));
        s
    }
}

/// Makes `level` groups of two spaces.
pub fn indentation_string(level: usize) -> (r: String)
    ensures
        r@ == indentation(level as nat),
{
    let mut s = String::new();
    let mut i: usize = 0;
    while i < level
        invariant
            i <= level,
            s@ == indentation(i as nat),
        decreases level - i,
    {
        s.append("  ");
        i = i + 1;
    }
    s
}

/// Makes the display line of a file from the indentation in front of it.
pub fn file_line_string(prefix: &String, name: &String, size: usize, Ghost(level): Ghost<nat>) -> (r:
    String)
    requires
        prefix@ == indentation(level),
    ensures
        r@ == file_line(level, name@, size as nat),
{
    let mut s = prefix.clone();
    s.append("📄 ");
    s.append(name.as_str());
    s.append(" (");
    let digits = decimal_string(size);
    s.append(digits.as_str());
    s.append(" bytes)");
    s
}

/// Makes the display line of a folder from the indentation in front of it.
pub fn folder_line_string(prefix: &String, name: &String, Ghost(level): Ghost<nat>) -> (r: String)
    requires
        prefix@ == indentation(level),
    ensures
        r@ == folder_line(level, name@),
{
    let mut s = prefix.clone();
    s.append("📂 ");
    s.append(name.as_str());
    s
}

} // verus!
