//! The names a deployment gives to what it stores: its correlation
//! identifier, its summary file and the copied machine images.

use crate::text::{owned, push_char};
use vstd::prelude::*;

verus! {

/// The lower-case hexadecimal digit of `d`.
pub open spec fn hex_digit(d: nat) -> char {
    if d < 10 {
        ((48 + d) as u32) as char
    } else {
        ((87 + d) as u32) as char
    }
}

/// The lower-case hexadecimal numeral of `n`, without leading zeros, as
/// `{:x}` writes it.
pub open spec fn hexadecimal(n: nat) -> Seq<char>
    decreases n,
{
    if n < 16 {
        seq![hex_digit(n)]
    } else {
        hexadecimal(n / 16).push(hex_digit(n % 16))
    }
}

fn hex_digit_char(d: u64) -> (c: char)
    requires
        d < 16,
    ensures
        c == hex_digit(d as nat),
{
    match d {
        0 => '0',
        1 => '1',
        2 => '2',
        3 => '3',
        4 => '4',
        5 => '5',
        6 => '6',
        7 => '7',
        8 => '8',
        9 => '9',
        10 => 'a',
        11 => 'b',
        12 => 'c',
        13 => 'd',
        14 => 'e',
        _ => 'f',
    }
}

/// Appends the hexadecimal numeral of `n`.
pub fn push_hexadecimal(out: &mut String, n: u64)
    ensures
        final(out)@ == old(out)@ + hexadecimal(n as nat),
    decreases n,
{
    if n >= 16 {
        push_hexadecimal(out, n / 16);
    }
    push_char(out, hex_digit_char(n % 16));
    proof {
        if n >= 16 {
            assert(hexadecimal(n as nat) == hexadecimal((n / 16) as nat).push(hex_digit((n % 16) as nat)));
        }
    }
}

/// The correlation identifier of a deployment of `laboratory_identifier`
/// started `seconds` and `nanoseconds` after the Unix epoch by process
/// `process_id`.
pub open spec fn correlation_text(
    laboratory_identifier: Seq<char>,
    seconds: u64,
    nanoseconds: u32,
    process_id: u32,
) -> Seq<char> {
    "deploy-"@ + laboratory_identifier + "-"@ + hexadecimal(seconds as nat) + "-"@ + hexadecimal(
        nanoseconds as nat,
    ) + "-"@ + hexadecimal(process_id as nat)
}

/// `deploy-{laboratory}-{seconds:x}-{nanoseconds:x}-{process:x}`.
pub fn correlation_identifier(
    laboratory_identifier: &str,
    seconds: u64,
    nanoseconds: u32,
    process_id: u32,
) -> (identifier: String)
    ensures
        identifier@ == correlation_text(laboratory_identifier@, seconds, nanoseconds, process_id),
{
    let mut out = owned("deploy-");
    out.append(laboratory_identifier);
    out.append("-");
    push_hexadecimal(&mut out, seconds);
    out.append("-");
    push_hexadecimal(&mut out, nanoseconds as u64);
    out.append("-");
    push_hexadecimal(&mut out, process_id as u64);
    proof {
        assert(out@ =~= correlation_text(laboratory_identifier@, seconds, nanoseconds, process_id));
    }
    out
}

/// The file name of a deployment's summary: the correlation identifier with
/// `.json`.
pub fn deployment_summary_file_name(correlation_identifier: &str) -> (name: String)
    ensures
        name@ == correlation_identifier@ + ".json"@,
{
    let mut out = owned(correlation_identifier);
    out.append(".json");
    out
}

/// The directory, inside a deployment's artifacts, of the copied images.
pub const IMAGES_DIRECTORY: &'static str = "images";

/// The file name of a machine's copied image: its identifier with `.qcow2`.
pub fn copied_image_file_name(machine_identifier: &str) -> (name: String)
    ensures
        name@ == machine_identifier@ + ".qcow2"@,
{
    let mut out = owned(machine_identifier);
    out.append(".qcow2");
    out
}


proof fn lemma_hex_digits_differ(a: nat, b: nat)
    requires
        a < 16,
        b < 16,
        a != b,
    ensures
        hex_digit(a) != hex_digit(b),
        hex_digit(a) != '-',
{
    let ca = if a < 10 { 48 + a } else { 87 + a };
    let cb = if b < 10 { 48 + b } else { 87 + b };
    assert(ca != cb);
    assert(hex_digit(a) as u32 == ca);
    assert(hex_digit(b) as u32 == cb);
}

proof fn lemma_hex_shape(n: nat)
    ensures
        hexadecimal(n).len() >= 1,
        n >= 16 ==> hexadecimal(n).len() >= 2,
        forall|i: int| 0 <= i < hexadecimal(n).len() ==> #[trigger] hexadecimal(n)[i] != '-',
    decreases n,
{
    if n < 16 {
        lemma_hex_digits_differ(n, if n == 0 { 1 } else { 0 });
    } else {
        lemma_hex_shape(n / 16);
        lemma_hex_digits_differ(n % 16, if n % 16 == 0 { 1 } else { 0 });
        let h = hexadecimal(n);
        assert(h == hexadecimal(n / 16).push(hex_digit(n % 16)));
        assert forall|i: int| 0 <= i < h.len() implies #[trigger] h[i] != '-' by {
            if i < h.len() - 1 {
                assert(h[i] == hexadecimal(n / 16)[i]);
            }
        }
    }
}

proof fn lemma_hex_injective(a: nat, b: nat)
    requires
        hexadecimal(a) == hexadecimal(b),
    ensures
        a == b,
    decreases a,
{
    lemma_hex_shape(a);
    lemma_hex_shape(b);
    let ha = hexadecimal(a);
    if a < 16 && b < 16 {
        if a != b {
            lemma_hex_digits_differ(a, b);
            assert(ha[0] != hexadecimal(b)[0]);
        }
    } else if a >= 16 && b >= 16 {
        assert(ha.last() == hex_digit(a % 16));
        assert(hexadecimal(b).last() == hex_digit(b % 16));
        if a % 16 != b % 16 {
            lemma_hex_digits_differ(a % 16, b % 16);
        }
        assert(ha.drop_last() =~= hexadecimal(a / 16));
        assert(hexadecimal(b).drop_last() =~= hexadecimal(b / 16));
        lemma_hex_injective(a / 16, b / 16);
    } else {
        assert(ha.len() != hexadecimal(b).len());
    }
}

/// Two words without dashes joined by a dash to what follows can be told
/// apart: the first word ends at the first dash.
proof fn lemma_dash_split(x1: Seq<char>, y1: Seq<char>, x2: Seq<char>, y2: Seq<char>)
    requires
        forall|i: int| 0 <= i < x1.len() ==> #[trigger] x1[i] != '-',
        forall|i: int| 0 <= i < x2.len() ==> #[trigger] x2[i] != '-',
        x1 + seq!['-'] + y1 == x2 + seq!['-'] + y2,
    ensures
        x1 == x2,
        y1 == y2,
{
    let s = x1 + seq!['-'] + y1;
    if x1.len() < x2.len() {
        assert(s[x1.len() as int] == '-');
        assert((x2 + seq!['-'] + y2)[x1.len() as int] == x2[x1.len() as int]);
    } else if x2.len() < x1.len() {
        assert((x2 + seq!['-'] + y2)[x2.len() as int] == '-');
        assert(s[x2.len() as int] == x1[x2.len() as int]);
    } else {
        assert(x1 =~= s.take(x1.len() as int));
        assert(x2 =~= (x2 + seq!['-'] + y2).take(x2.len() as int));
        assert(y1 =~= s.skip(x1.len() as int + 1));
        assert(y2 =~= (x2 + seq!['-'] + y2).skip(x2.len() as int + 1));
    }
}

/// Deployments of one laboratory started at different times, or by
/// different processes, get different correlation identifiers.
pub proof fn lemma_correlation_identifiers_distinct(
    laboratory_identifier: Seq<char>,
    first: (u64, u32, u32),
    second: (u64, u32, u32),
)
    requires
        first != second,
    ensures
        correlation_text(laboratory_identifier, first.0, first.1, first.2) != correlation_text(
            laboratory_identifier,
            second.0,
            second.1,
            second.2,
        ),
{
    let prefix = "deploy-"@ + laboratory_identifier + "-"@;
    let (s1, n1, p1) = (hexadecimal(first.0 as nat), hexadecimal(first.1 as nat), hexadecimal(first.2 as nat));
    let (s2, n2, p2) = (hexadecimal(second.0 as nat), hexadecimal(second.1 as nat), hexadecimal(second.2 as nat));
    let tail1 = s1 + seq!['-'] + (n1 + seq!['-'] + p1);
    let tail2 = s2 + seq!['-'] + (n2 + seq!['-'] + p2);
    reveal_strlit("-");
    assert(correlation_text(laboratory_identifier, first.0, first.1, first.2) =~= prefix + tail1);
    assert(correlation_text(laboratory_identifier, second.0, second.1, second.2) =~= prefix + tail2);
    if prefix + tail1 == prefix + tail2 {
        assert(tail1 =~= (prefix + tail1).skip(prefix.len() as int));
        assert(tail2 =~= (prefix + tail2).skip(prefix.len() as int));
        lemma_hex_shape(first.0 as nat);
        lemma_hex_shape(second.0 as nat);
        lemma_hex_shape(first.1 as nat);
        lemma_hex_shape(second.1 as nat);
        lemma_dash_split(s1, n1 + seq!['-'] + p1, s2, n2 + seq!['-'] + p2);
        lemma_dash_split(n1, p1, n2, p2);
        lemma_hex_injective(first.0 as nat, second.0 as nat);
        lemma_hex_injective(first.1 as nat, second.1 as nat);
        lemma_hex_injective(first.2 as nat, second.2 as nat);
    }
}

} // verus!
