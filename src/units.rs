use vstd::prelude::*;

verus! {

/// One kibibyte, the step between the units that sizes are shown in.
pub const KB: u64 = 1024;

/// One mebibyte.
pub const MB: u64 = 1024 * 1024;

/// One gibibyte.
pub const GB: u64 = 1024 * 1024 * 1024;

/// The ten decimal digits, in order.
pub open spec fn digit_chars() -> Seq<char> {
    seq!['0', '1', '2', '3', '4', '5', '6', '7', '8', '9']
}

/// The decimal representation of `n`, without sign or leading zeros.
pub open spec fn decimal_text(n: nat) -> Seq<char>
    decreases n,
{
    if n < 10 {
        seq![digit_chars()[n as int]]
    } else {
        decimal_text(n / 10).push(digit_chars()[(n % 10) as int])
    }
}

/// `s`, preceded by as many zeros as make it at least `width` long.
pub open spec fn zero_padded(s: Seq<char>, width: nat) -> Seq<char>
    decreases width - s.len(),
{
    if s.len() >= width {
        s
    } else {
        zero_padded(seq!['0'] + s, width)
    }
}

/// `10` raised to `places`.
pub open spec fn pow10(places: nat) -> nat
    decreases places,
{
    if places == 0 {
        1
    } else {
        10 * pow10((places - 1) as nat)
    }
}

/// `n / d` rounded to the nearest integer, ties going to the even one.
pub open spec fn round_half_even(n: nat, d: nat) -> nat
    recommends
        d > 0,
{
    let q = n / d;
    let r = n % d;
    if 2 * r > d || (2 * r == d && q % 2 == 1) {
        q + 1
    } else {
        q
    }
}

/// `num / unit` written with exactly `places` digits after the point,
/// rounded half to even.
pub open spec fn fixed_text(num: nat, unit: nat, places: nat) -> Seq<char> {
    let scale = pow10(places);
    let q = round_half_even(num * scale, unit);
    decimal_text(q / scale) + seq!['.'] + zero_padded(decimal_text(q % scale), places)
}

/// A byte count as shown in directory listings: two decimals in the
/// largest binary unit that the count reaches, plain bytes below one KB.
pub open spec fn bytes_text(b: nat) -> Seq<char> {
    if b >= GB {
        fixed_text(b, GB as nat, 2) + seq![' ', 'G', 'B']
    } else if b >= MB {
        fixed_text(b, MB as nat, 2) + seq![' ', 'M', 'B']
    } else if b >= KB {
        fixed_text(b, KB as nat, 2) + seq![' ', 'K', 'B']
    } else {
        decimal_text(b) + seq![' ', 'B']
    }
}

/// A file size as shown in the dashboard: one decimal in the largest
/// binary unit that the size reaches, whole bytes below one KB.
pub open spec fn size_text(b: nat) -> Seq<char> {
    if b < KB {
        decimal_text(b) + seq![' ', 'B']
    } else if b < MB {
        fixed_text(b, KB as nat, 1) + seq![' ', 'K', 'B']
    } else if b < GB {
        fixed_text(b, MB as nat, 1) + seq![' ', 'M', 'B']
    } else {
        fixed_text(b, GB as nat, 1) + seq![' ', 'G', 'B']
    }
}

fn digit(d: u128) -> (r: String)
    requires
        d < 10,
    ensures
        r@ == seq![digit_chars()[d as int]],
{
    let all = "0123456789";
    proof {
        reveal_strlit("0123456789");
    }
    let one = all.substring_char(d as usize, d as usize + 1);
    let r = String::from_str(one);
    assert(r@ =~= seq![digit_chars()[d as int]]);
    r
}

/// The decimal representation of `n`.
pub fn decimal(n: u128) -> (r: String)
    ensures
        r@ == decimal_text(n as nat),
    decreases n,
{
    if n < 10 {
        digit(n)
    } else {
        let mut s = decimal(n / 10);
        let last = digit(n % 10);
        s.append(last.as_str());
        assert(s@ =~= decimal_text(n as nat));
        s
    }
}

fn pad_zeros(s: String, width: usize) -> (r: String)
    ensures
        r@ == zero_padded(s@, width as nat),
    decreases width - s@.len(),
{
    if s.unicode_len() >= width {
        s
    } else {
        let mut z = String::from_str("0");
        proof {
            reveal_strlit("0");
        }
        z.append(s.as_str());
        assert(z@ =~= seq!['0'] + s@);
        pad_zeros(z, width)
    }
}

fn fixed_point(num: u64, unit: u64, places: usize) -> (r: String)
    requires
        unit > 0,
        places == 1 || places == 2,
    ensures
        r@ == fixed_text(num as nat, unit as nat, places as nat),
{
    let scale: u128 = if places == 1 { 10 } else { 100 };
    assert(scale == pow10(places as nat)) by {
        reveal_with_fuel(pow10, 3);
    }
    assert(num as u128 * scale <= u64::MAX as u128 * 100) by (nonlinear_arith)
        requires
            scale <= 100,
    ;
    let scaled: u128 = num as u128 * scale;
    let q: u128 = scaled / (unit as u128);
    let rem: u128 = scaled % (unit as u128);
    assert(q <= scaled) by (nonlinear_arith)
        requires
            q == scaled / (unit as u128),
            unit > 0,
    ;
    let rounded: u128 = if 2 * rem > unit as u128 || (2 * rem == unit as u128 && q % 2 == 1) {
        q + 1
    } else {
        q
    };
    let mut s = decimal(rounded / scale);
    s.append(".");
    proof {
        reveal_strlit(".");
    }
    let frac = pad_zeros(decimal(rounded % scale), places);
    s.append(frac.as_str());
    assert(s@ =~= fixed_text(num as nat, unit as nat, places as nat));
    s
}

fn with_unit(mut s: String, unit: &str) -> (r: String)
    ensures
        r@ == s@ + unit@,
{
    s.append(unit);
    s
}

/// Formats a byte count for directory listings: `"512 B"`, `"1.50 KB"`,
/// `"2.00 MB"`, `"3.25 GB"`.
pub fn format_bytes(bytes: u64) -> (r: String)
    ensures
        r@ == bytes_text(bytes as nat),
{
    proof {
        reveal_strlit(" GB");
        reveal_strlit(" MB");
        reveal_strlit(" KB");
        reveal_strlit(" B");
    }
    if bytes >= GB {
        with_unit(fixed_point(bytes, GB, 2), " GB")
    } else if bytes >= MB {
        with_unit(fixed_point(bytes, MB, 2), " MB")
    } else if bytes >= KB {
        with_unit(fixed_point(bytes, KB, 2), " KB")
    } else {
        with_unit(decimal(bytes as u128), " B")
    }
}

/// Formats a file size for the dashboard: `"512 B"`, `"1.5 KB"`,
/// `"2.0 MB"`, `"3.2 GB"`.
pub fn format_size(bytes: u64) -> (r: String)
    ensures
        r@ == size_text(bytes as nat),
{
    proof {
        reveal_strlit(" GB");
        reveal_strlit(" MB");
        reveal_strlit(" KB");
        reveal_strlit(" B");
    }
    if bytes < KB {
        with_unit(decimal(bytes as u128), " B")
    } else if bytes < MB {
        with_unit(fixed_point(bytes, KB, 1), " KB")
    } else if bytes < GB {
        with_unit(fixed_point(bytes, MB, 1), " MB")
    } else {
        with_unit(fixed_point(bytes, GB, 1), " GB")
    }
}

} // verus!
