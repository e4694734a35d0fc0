//! The key-distribution request URL for a chip and its reported TCB version.
use vstd::prelude::*;

verus! {

/// Base address of AMD's key-distribution service.
pub const KDS_CERT_SITE: &'static str = "https://kdsintf.amd.com";

/// Path of the VCEK endpoint under the service's base address.
pub const KDS_VCEK: &'static str = "/vcek/v1";

/// Processor family whose certificates are requested.
pub const PRODUCT_NAME: &'static str = "Genoa";

/// Number of bytes in a chip identifier.
pub const CHIP_ID_LEN: usize = 64;

/// The reported TCB version of an attestation report: the security version
/// numbers of the PSP bootloader, the PSP OS, the SNP firmware and the
/// lowest microcode patch level.
#[derive(Clone, Copy, Debug, PartialEq, Eq, Structural)]
pub struct TcbVersion {
    pub bootloader: u8,
    pub tee: u8,
    pub snp: u8,
    pub microcode: u8,
}

/// The lowercase hexadecimal digit for a value below 16.
pub open spec fn hex_digit(d: int) -> char {
    seq!['0', '1', '2', '3', '4', '5', '6', '7', '8', '9', 'a', 'b', 'c', 'd', 'e', 'f'][d]
}

/// Lowercase hex encoding: two digits per byte, high nibble first.
pub open spec fn hex_of(b: Seq<u8>) -> Seq<char> {
    Seq::new(
        2 * b.len(),
        |i: int|
            if i % 2 == 0 {
                hex_digit(b[i / 2] as int / 16)
            } else {
                hex_digit(b[i / 2] as int % 16)
            },
    )
}

/// A character that may stand in lowercase hex text.
pub open spec fn is_lower_hex_char(c: char) -> bool {
    ('0' <= c && c <= '9') || ('a' <= c && c <= 'f')
}

/// The decimal digit for a value below 10.
pub open spec fn decimal_digit(d: nat) -> char {
    hex_digit(d as int)
}

/// The natural decimal rendering of `n`, without leading zeros.
pub open spec fn decimal(n: nat) -> Seq<char>
    decreases n,
{
    if n < 10 {
        seq![decimal_digit(n)]
    } else {
        decimal(n / 10).push(decimal_digit(n % 10))
    }
}

/// The decimal rendering of `n`, padded on the left with zeros to at least
/// two digits.
pub open spec fn decimal_pad2(n: nat) -> Seq<char> {
    if decimal(n).len() < 2 {
        seq!['0'] + decimal(n)
    } else {
        decimal(n)
    }
}

/// The query string that selects a TCB version.
pub open spec fn tcb_query(tcb: TcbVersion) -> Seq<char> {
    "?blSPL="@ + decimal_pad2(tcb.bootloader as nat) + "&teeSPL="@ + decimal_pad2(tcb.tee as nat)
        + "&snpSPL="@ + decimal_pad2(tcb.snp as nat) + "&ucodeSPL="@ + decimal_pad2(
        tcb.microcode as nat,
    )
}

/// Everything of the request URL that comes before the chip identifier.
pub open spec fn vcek_url_prefix() -> Seq<char> {
    KDS_CERT_SITE@ + KDS_VCEK@ + "/"@ + PRODUCT_NAME@ + "/"@
}

/// The request URL for the VCEK of chip `chip_id` at TCB version `tcb`.
pub open spec fn vcek_url_of(chip_id: Seq<u8>, tcb: TcbVersion) -> Seq<char> {
    vcek_url_prefix() + hex_of(chip_id) + tcb_query(tcb)
}

/// Relies on hex::encode: each byte becomes two characters of
/// `0123456789abcdef`, high nibble first, in the order of the bytes.
#[verifier::external_body]
fn encode_hex(b: &[u8]) -> (r: String)
    ensures
        r@ == hex_of(b@),
{
    hex::encode(b)
}

/// Relies on String::push: the character is appended at the end.
#[verifier::external_body]
fn push_char(s: &mut String, c: char)
    ensures
        final(s)@ == old(s)@.push(c),
{
    s.push(c)
}

/// The decimal digit character for `d`.
fn digit_char(d: u8) -> (c: char)
    requires
        d < 10,
    ensures
        c == decimal_digit(d as nat),
{
    match d {
        0 => '0',
        1 => '1',
        2 => '2',
        3 => '3',
        4 => '4',
        5 => '5',
        6 => '6',
        7 => '7',
        8 => '8',
        _ => '9',
    }
}

/// The decimal rendering of a byte, spelled out by its number of digits.
proof fn lemma_decimal_u8(v: u8)
    ensures
        v < 10 ==> decimal(v as nat) == seq![decimal_digit(v as nat)],
        10 <= v < 100 ==> decimal(v as nat) == seq![
            decimal_digit(v as nat / 10),
            decimal_digit(v as nat % 10),
        ],
        100 <= v ==> decimal(v as nat) == seq![
            decimal_digit(v as nat / 100),
            decimal_digit(v as nat / 10 % 10),
            decimal_digit(v as nat % 10),
        ],
{
    let n = v as nat;
    reveal_with_fuel(decimal, 3);
    if 10 <= v < 100 {
        assert(decimal(n / 10) == seq![decimal_digit(n / 10)]);
        assert(decimal(n) =~= seq![decimal_digit(n / 10), decimal_digit(n % 10)]);
    } else if 100 <= v {
        assert(n / 10 / 10 == n / 100);
        assert(decimal(n / 10 / 10) == seq![decimal_digit(n / 100)]);
        assert(decimal(n / 10) =~= seq![decimal_digit(n / 100), decimal_digit(n / 10 % 10)]);
        assert(decimal(n) =~= seq![
            decimal_digit(n / 100),
            decimal_digit(n / 10 % 10),
            decimal_digit(n % 10),
        ]);
    }
}

/// Appends `v` in decimal, zero-padded to at least two digits.
fn push_decimal_pad2(s: &mut String, v: u8)
    ensures
        final(s)@ == old(s)@ + decimal_pad2(v as nat),
{
    proof {
        lemma_decimal_u8(v);
    }
    let ghost before = s@;
    if v >= 100 {
        push_char(s, digit_char(v / 100));
        push_char(s, digit_char((v / 10) % 10));
        push_char(s, digit_char(v % 10));
        assert(s@ =~= before + decimal_pad2(v as nat));
    } else if v >= 10 {
        push_char(s, digit_char(v / 10));
        push_char(s, digit_char(v % 10));
        assert(s@ =~= before + decimal_pad2(v as nat));
    } else {
        push_char(s, '0');
        push_char(s, digit_char(v));
        assert(s@ =~= before + decimal_pad2(v as nat));
    }
}

/// The request URL for the VCEK of chip `chip_id` at TCB version
/// `reported_tcb`: the chip identifier in lowercase hex as the last path
/// segment, then each TCB field in decimal, padded to two digits.
pub fn vcek_url(chip_id: &[u8; 64], reported_tcb: TcbVersion) -> (r: String)
    ensures
        r@ == vcek_url_of(chip_id@, reported_tcb),
{
    let mut url = String::from_str(KDS_CERT_SITE);
    url.append(KDS_VCEK);
    url.append("/");
    url.append(PRODUCT_NAME);
    url.append("/");
    let hw_id = encode_hex(chip_id.as_slice());
    url.append(hw_id.as_str());
    url.append("?blSPL=");
    push_decimal_pad2(&mut url, reported_tcb.bootloader);
    url.append("&teeSPL=");
    push_decimal_pad2(&mut url, reported_tcb.tee);
    url.append("&snpSPL=");
    push_decimal_pad2(&mut url, reported_tcb.snp);
    url.append("&ucodeSPL=");
    push_decimal_pad2(&mut url, reported_tcb.microcode);
    assert(url@ =~= vcek_url_of(chip_id@, reported_tcb));
    url
}

/// Every hex digit is a lowercase hex character.
proof fn lemma_hex_digit(d: int)
    requires
        0 <= d < 16,
    ensures
        is_lower_hex_char(hex_digit(d)),
{
    let t = seq!['0', '1', '2', '3', '4', '5', '6', '7', '8', '9', 'a', 'b', 'c', 'd', 'e', 'f'];
    assert(forall|i: int| 0 <= i < 16 ==> is_lower_hex_char(#[trigger] t[i]));
}

/// For every 64-byte chip identifier, the chip's path segment of the request
/// URL is exactly 128 characters, each a digit or a lowercase letter `a`-`f`:
/// no uppercase letter and no separator. It follows the product's path, which
/// ends in `/`, and precedes the query, which starts with `?`.
pub proof fn lemma_chip_segment_is_lower_hex(chip_id: Seq<u8>, tcb: TcbVersion)
    requires
        chip_id.len() == CHIP_ID_LEN,
    ensures
        vcek_url_of(chip_id, tcb) == vcek_url_prefix() + hex_of(chip_id) + tcb_query(tcb),
        vcek_url_prefix().last() == '/',
        tcb_query(tcb)[0] == '?',
        hex_of(chip_id).len() == 128,
        forall|i: int| 0 <= i < 128 ==> is_lower_hex_char(#[trigger] hex_of(chip_id)[i]),
{
    reveal_strlit("/");
    reveal_strlit("?blSPL=");
    assert(vcek_url_prefix().last() == "/"@.last());
    assert(tcb_query(tcb)[0] == "?blSPL="@[0]);
    assert forall|i: int| 0 <= i < 128 implies is_lower_hex_char(#[trigger] hex_of(chip_id)[i]) by {
        let b = chip_id[i / 2] as int;
        lemma_hex_digit(b / 16);
        lemma_hex_digit(b % 16);
    }
}

/// Each TCB field below 100 renders as exactly two decimal digits, tens then
/// units; a field of 100 or more renders as its natural three-digit decimal
/// form, whose first digit is not zero, with nothing cut off.
pub proof fn lemma_tcb_field_rendering(v: u8)
    ensures
        v < 100 ==> decimal_pad2(v as nat) == seq![
            decimal_digit(v as nat / 10),
            decimal_digit(v as nat % 10),
        ],
        v >= 100 ==> decimal_pad2(v as nat) == decimal(v as nat),
        v >= 100 ==> decimal(v as nat) == seq![
            decimal_digit(v as nat / 100),
            decimal_digit(v as nat / 10 % 10),
            decimal_digit(v as nat % 10),
        ],
        v >= 100 ==> 1 <= v as nat / 100 <= 2,
{
    lemma_decimal_u8(v);
    if v < 10 {
        assert(decimal_pad2(v as nat) =~= seq![decimal_digit(0), decimal_digit(v as nat)]);
    }
}

} // verus!
