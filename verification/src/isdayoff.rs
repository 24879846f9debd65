//! The day-off lookup protocol: request URLs, and the exact meaning of
//! the service's responses.
//!
//! The service answers a month query with an ASCII string of `0`/`1`
//! digits. Read directly as a binary numeral the digits come out in
//! reversed day order, so the byte sequence is reversed before parsing;
//! after that, bit `k` of the parsed mask speaks about day `k + 1` of
//! the month (`lemma_payload_day_bit`).

use vstd::arithmetic::power2::{lemma2_to64, lemma_pow2_strictly_increases, lemma_pow2_unfold, pow2};
use vstd::prelude::*;
use vstd::string::StringExecFns;
use vstd::string::StringSliceAdditionalSpecFns;

use crate::daysoff_mask::DaysOffMask;
use crate::month_date::MonthDate;

verus! {

/// Country the day-off data is fetched for.
#[derive(Debug, Clone, Copy, PartialEq, Eq, Hash, Structural)]
pub enum TargetCountry {
    Belarus,
    Kazakhstan,
    Russia,
    Ukraine,
}

impl TargetCountry {
    /// The two-letter code the lookup service expects.
    pub open spec fn spec_countrycode(self) -> Seq<char> {
        match self {
            TargetCountry::Belarus => "by"@,
            TargetCountry::Kazakhstan => "kz"@,
            TargetCountry::Russia => "ru"@,
            TargetCountry::Ukraine => "ua"@,
        }
    }

    pub fn to_countrycode(self) -> (r: &'static str)
        ensures
            r@ == self.spec_countrycode(),
    {
        match self {
            TargetCountry::Belarus => "by",
            TargetCountry::Kazakhstan => "kz",
            TargetCountry::Russia => "ru",
            TargetCountry::Ukraine => "ua",
        }
    }
}

/// Every byte is the ASCII digit `0` or `1`.
pub open spec fn is_binary_digit_bytes(s: Seq<u8>) -> bool {
    forall|i: int| 0 <= i < s.len() ==> ((#[trigger] s[i]) == 0x30u8 || s[i] == 0x31u8)
}

/// The number an ASCII binary numeral denotes, most significant digit
/// first.
pub open spec fn spec_binary_value(s: Seq<u8>) -> int
    decreases s.len(),
{
    if s.len() == 0 {
        0
    } else {
        spec_binary_value(s.drop_last()) * 2 + (if s.last() == 0x31u8 {
            1int
        } else {
            0int
        })
    }
}

pub proof fn lemma_binary_value_bound(s: Seq<u8>)
    ensures
        0 <= spec_binary_value(s) < pow2(s.len() as nat),
    decreases s.len(),
{
    if s.len() == 0 {
        lemma2_to64();
    } else {
        lemma_binary_value_bound(s.drop_last());
        lemma_pow2_unfold(s.len() as nat);
    }
}

/// Bit `k` of the number a binary numeral denotes is set exactly when
/// the digit `k` places from its end is `1`.
pub proof fn lemma_binary_value_bit(s: Seq<u8>, k: u32)
    requires
        s.len() <= 32,
        k < s.len(),
    ensures
        ((spec_binary_value(s) as u32) >> k) & 1u32 == (if s[s.len() - 1 - k] == 0x31u8 {
            1u32
        } else {
            0u32
        }),
    decreases s.len(),
{
    lemma_binary_value_bound(s);
    lemma_binary_value_bound(s.drop_last());
    lemma2_to64();
    if s.len() < 32 {
        lemma_pow2_strictly_increases((s.len() - 1) as nat, 31);
    }
    let vu = spec_binary_value(s) as u32;
    let qu = spec_binary_value(s.drop_last()) as u32;
    let bu: u32 = if s.last() == 0x31u8 {
        1u32
    } else {
        0u32
    };
    if k == 0 {
        assert((vu >> 0u32) & 1u32 == bu) by (bit_vector)
            requires
                vu == 2 * qu + bu,
                bu <= 1,
                qu < 0x80000000u32,
        ;
    } else {
        lemma_binary_value_bit(s.drop_last(), (k - 1) as u32);
        assert((vu >> k) & 1u32 == (qu >> ((k - 1) as u32)) & 1u32) by (bit_vector)
            requires
                vu == 2 * qu + bu,
                bu <= 1,
                qu < 0x80000000u32,
                1 <= k < 32,
        ;
        assert(s.drop_last()[s.len() - 2 - (k - 1)] == s[s.len() - 1 - k]);
    }
}

/// After the reversal step, bit `k` of the parsed mask — day `k + 1` of
/// the month — is set exactly when byte `k` of the body, counted from
/// its front, is the digit `1`.
pub proof fn lemma_payload_day_bit(body: Seq<u8>, k: u32)
    requires
        0 < body.len() <= 32,
        k < body.len(),
    ensures
        DaysOffMask((spec_binary_value(body.reverse()) as u32)).spec_is_off(k) == (body[k as int]
            == 0x31u8),
{
    lemma_binary_value_bit(body.reverse(), k);
    assert(body.reverse()[body.len() - 1 - k] == body[k as int]);
}

/// Parse an ASCII binary numeral, most significant digit first.
pub fn parse_binary_bytes(s: &[u8]) -> (r: u32)
    requires
        is_binary_digit_bytes(s@),
        s@.len() <= 32,
    ensures
        r == spec_binary_value(s@),
{
    let mut acc: u32 = 0;
    let mut i: usize = 0;
    proof {
        lemma2_to64();
    }
    while i < s.len()
        invariant
            i <= s@.len() <= 32,
            is_binary_digit_bytes(s@),
            acc == spec_binary_value(s@.subrange(0, i as int)),
            acc < pow2(i as nat),
        decreases s@.len() - i,
    {
        proof {
            lemma2_to64();
            lemma_pow2_unfold((i + 1) as nat);
            if i + 1 < 32 {
                lemma_pow2_strictly_increases((i + 1) as nat, 32);
            }
            assert(s@.subrange(0, (i + 1) as int).drop_last() =~= s@.subrange(0, i as int));
        }
        let d: u32 = if s[i] == 0x31 {
            1
        } else {
            0
        };
        acc = acc * 2 + d;
        i += 1;
    }
    proof {
        assert(s@.subrange(0, s@.len() as int) =~= s@);
    }
    acc
}

/// Every character is the digit `0` or `1`.
pub open spec fn is_binary_digit_chars(s: Seq<char>) -> bool {
    forall|i: int| 0 <= i < s.len() ==> #[trigger] s[i] == '0' || s[i] == '1'
}

/// The number a binary numeral denotes, as a character string.
pub open spec fn spec_binary_value_chars(s: Seq<char>) -> int
    decreases s.len(),
{
    if s.len() == 0 {
        0
    } else {
        spec_binary_value_chars(s.drop_last()) * 2 + (if s.last() == '1' {
            1int
        } else {
            0int
        })
    }
}

proof fn lemma_value_chars_matches_bytes(cs: Seq<char>, bs: Seq<u8>)
    requires
        cs.len() == bs.len(),
        forall|i: int| 0 <= i < cs.len() ==> #[trigger] bs[i] == cs[i] as u8,
        is_binary_digit_chars(cs),
    ensures
        is_binary_digit_bytes(bs),
        spec_binary_value_chars(cs) == spec_binary_value(bs),
    decreases cs.len(),
{
    if cs.len() > 0 {
        lemma_value_chars_matches_bytes(cs.drop_last(), bs.drop_last());
    }
}

/// Parse a well-formed lookup body of `0`/`1` digits as a binary
/// numeral, most significant digit first.
pub fn parse_isdayoff_response(body: &str) -> (r: u32)
    requires
        is_binary_digit_chars(body@),
        0 < body@.len() <= 32,
    ensures
        r == spec_binary_value_chars(body@),
{
    proof {
        assert(vstd::string::is_ascii(body));
        vstd::string::is_ascii_spec_bytes(body);
        lemma_value_chars_matches_bytes(body@, body.spec_bytes());
    }
    parse_binary_bytes(body.as_bytes())
}

/// What one answer of the lookup service means.
#[derive(Debug, Clone, Copy, PartialEq, Eq, Structural)]
pub enum LookupOutcome {
    /// HTTP 200 with a well-formed digit body: the month's mask.
    Available(u32),
    /// HTTP 200 whose body is not a usable digit string.
    MalformedPayload,
    /// HTTP 400 with body `100`: the date parameters were invalid.
    InvalidDate,
    /// HTTP 400 with body `199`: the service's backend failed.
    BackendError,
    /// HTTP 400 with any other body.
    UnrecognizedError,
    /// HTTP 404: nothing published for the requested month.
    NoData,
    /// Any other status.
    UnexpectedStatus,
}

impl LookupOutcome {
    /// The mask this outcome supplies, if any; every outcome but
    /// `Available` resolves to "no mask available".
    pub open spec fn spec_mask(self) -> Option<u32> {
        match self {
            LookupOutcome::Available(m) => Some(m),
            _ => None,
        }
    }

    pub fn mask(self) -> (r: Option<u32>)
        ensures
            r == self.spec_mask(),
    {
        match self {
            LookupOutcome::Available(m) => Some(m),
            _ => None,
        }
    }
}

/// How a delivered response, status plus body, is interpreted.
pub open spec fn spec_classify(status: int, body: Seq<u8>) -> LookupOutcome {
    if status == 200 {
        if 0 < body.len() <= 32 && is_binary_digit_bytes(body) {
            LookupOutcome::Available(spec_binary_value(body.reverse()) as u32)
        } else {
            LookupOutcome::MalformedPayload
        }
    } else if status == 400 {
        if body == seq![0x31u8, 0x30u8, 0x30u8] {
            LookupOutcome::InvalidDate
        } else if body == seq![0x31u8, 0x39u8, 0x39u8] {
            LookupOutcome::BackendError
        } else {
            LookupOutcome::UnrecognizedError
        }
    } else if status == 404 {
        LookupOutcome::NoData
    } else {
        LookupOutcome::UnexpectedStatus
    }
}

/// Interpret a delivered lookup response. A transport failure never
/// reaches this point: it stays an error of the network layer.
pub fn classify_lookup_response(status: u16, body: &[u8]) -> (r: LookupOutcome)
    ensures
        r == spec_classify(status as int, body@),
{
    if status == 200 {
        if body.len() == 0 || body.len() > 32 {
            return LookupOutcome::MalformedPayload;
        }
        let mut i: usize = 0;
        while i < body.len()
            invariant
                status == 200,
                0 < body@.len() <= 32,
                i <= body@.len(),
                forall|j: int| 0 <= j < i ==> #[trigger] body@[j] == 0x30u8 || body@[j] == 0x31u8,
            decreases body@.len() - i,
        {
            if body[i] != 0x30 && body[i] != 0x31 {
                proof {
                    assert(!is_binary_digit_bytes(body@));
                }
                return LookupOutcome::MalformedPayload;
            }
            i += 1;
        }
        let rev = reversed_bytes(body);
        proof {
            lemma_binary_value_bound(body@.reverse());
            lemma2_to64();
        }
        LookupOutcome::Available(parse_binary_bytes(rev.as_slice()))
    } else if status == 400 {
        if body.len() == 3 && body[0] == 0x31 && body[1] == 0x30 && body[2] == 0x30 {
            proof {
                assert(body@ =~= seq![0x31u8, 0x30u8, 0x30u8]);
            }
            LookupOutcome::InvalidDate
        } else if body.len() == 3 && body[0] == 0x31 && body[1] == 0x39 && body[2] == 0x39 {
            proof {
                assert(body@ =~= seq![0x31u8, 0x39u8, 0x39u8]);
            }
            LookupOutcome::BackendError
        } else {
            proof {
                assert(body@ != seq![0x31u8, 0x30u8, 0x30u8] && body@ != seq![
                    0x31u8,
                    0x39u8,
                    0x39u8,
                ]);
            }
            LookupOutcome::UnrecognizedError
        }
    } else if status == 404 {
        LookupOutcome::NoData
    } else {
        LookupOutcome::UnexpectedStatus
    }
}

/// A failure of the network layer itself — resolution, connection or
/// timeout. Unlike the service's own error answers it is never absorbed
/// into a "no mask" outcome.
#[derive(Debug, Clone, Copy, PartialEq, Eq, Structural)]
pub enum NetworkError {
    /// No hostname resolved to an address.
    ResolutionFailed,
    /// A connection, send or receive failed, carried as its code.
    TransportError(u8),
}

/// The mask one month's lookup yields: `Ok(Some(mask))` for a delivered
/// well-formed answer, `Ok(None)` for every "no data" answer, and a
/// network-layer failure passed through untouched, to abort the
/// caller's pass instead of resolving to "no mask".
pub fn get_days_off_mask(reply: Result<(u16, Vec<u8>), NetworkError>) -> (r: Result<
    Option<u32>,
    NetworkError,
>)
    ensures
        r == match reply {
            Ok(sb) => Result::<Option<u32>, NetworkError>::Ok(
                spec_classify(sb.0 as int, sb.1@).spec_mask(),
            ),
            Err(e) => Result::<Option<u32>, NetworkError>::Err(e),
        },
{
    match reply {
        Ok((status, body)) => Ok(classify_lookup_response(status, body.as_slice()).mask()),
        Err(e) => Err(e),
    }
}

/// Attach a lookup's outcome to a month: an available mask is stored
/// cut down to the month's length; every other outcome keeps the mask
/// the month already has (its default weekend pattern, unless replaced
/// earlier).
pub fn update_days_off_mask(calendar: &mut crate::calendar::CalendarMonth, outcome: LookupOutcome)
    requires
        old(calendar).wf(),
    ensures
        final(calendar).wf(),
        final(calendar).date == old(calendar).date,
        match outcome.spec_mask() {
            Some(m) => final(calendar).days_off_mask.0 == crate::daysoff_mask::spec_truncate(
                m,
                crate::calendar::spec_days_in_month(
                    old(calendar).date.spec_year(),
                    old(calendar).date.spec_month(),
                ) as u32,
            ),
            None => final(calendar).days_off_mask == old(calendar).days_off_mask,
        },
{
    match outcome.mask() {
        Some(m) => calendar.set_days_off(DaysOffMask::new(m)),
        None => (),
    }
}

/// A decimal digit as its character.
pub open spec fn spec_digit_char(d: int) -> char {
    if d == 0 {
        '0'
    } else if d == 1 {
        '1'
    } else if d == 2 {
        '2'
    } else if d == 3 {
        '3'
    } else if d == 4 {
        '4'
    } else if d == 5 {
        '5'
    } else if d == 6 {
        '6'
    } else if d == 7 {
        '7'
    } else if d == 8 {
        '8'
    } else {
        '9'
    }
}

/// The decimal digits of `n`, most significant first.
pub open spec fn spec_decimal(n: int) -> Seq<char>
    decreases n,
{
    if n < 10 {
        seq![spec_digit_char(n)]
    } else {
        spec_decimal(n / 10) + seq![spec_digit_char(n % 10)]
    }
}

fn digit_str(d: u32) -> (r: &'static str)
    requires
        d < 10,
    ensures
        r@ == seq![spec_digit_char(d as int)],
{
    let r = match d {
        0 => "0",
        1 => "1",
        2 => "2",
        3 => "3",
        4 => "4",
        5 => "5",
        6 => "6",
        7 => "7",
        8 => "8",
        _ => "9",
    };
    proof {
        reveal_strlit("0");
        reveal_strlit("1");
        reveal_strlit("2");
        reveal_strlit("3");
        reveal_strlit("4");
        reveal_strlit("5");
        reveal_strlit("6");
        reveal_strlit("7");
        reveal_strlit("8");
        reveal_strlit("9");
        assert(r@ =~= seq![spec_digit_char(d as int)]);
    }
    r
}

/// `n` written in decimal.
pub fn u32_to_decimal(n: u32) -> (r: String)
    ensures
        r@ == spec_decimal(n as int),
    decreases n,
{
    if n < 10 {
        String::from_str(digit_str(n))
    } else {
        let mut s = u32_to_decimal(n / 10);
        s.append(digit_str(n % 10));
        proof {
            assert(s@ =~= spec_decimal(n as int));
        }
        s
    }
}

/// The GET request line the lookup service answers for a month and a
/// country.
pub open spec fn spec_lookup_url(date: MonthDate, country: TargetCountry) -> Seq<char> {
    "http://isdayoff.ru/api/getdata?year="@ + spec_decimal(date.spec_year()) + "&month="@
        + spec_decimal(date.spec_month()) + "&cc="@ + country.spec_countrycode()
}

pub fn lookup_url(date: MonthDate, country: TargetCountry) -> (r: String)
    requires
        date.valid(),
    ensures
        r@ == spec_lookup_url(date, country),
{
    let mut url = String::from_str("http://isdayoff.ru/api/getdata?year=");
    let year_s = u32_to_decimal(date.year() as u32);
    url.append(year_s.as_str());
    url.append("&month=");
    let month_s = u32_to_decimal(date.month() as u32);
    url.append(month_s.as_str());
    url.append("&cc=");
    url.append(country.to_countrycode());
    proof {
        assert(url@ =~= spec_lookup_url(date, country));
    }
    url
}

/// The bytes of `s`, back to front.
fn reversed_bytes(s: &[u8]) -> (r: Vec<u8>)
    ensures
        r@ == s@.reverse(),
{
    let mut r: Vec<u8> = Vec::new();
    let mut i: usize = s.len();
    while i > 0
        invariant
            i <= s@.len(),
            r@.len() == s@.len() - i,
            forall|j: int| 0 <= j < r@.len() ==> #[trigger] r@[j] == s@[s@.len() - 1 - j],
        decreases i,
    {
        i -= 1;
        let b = s[i];
        r.push(b);
    }
    proof {
        assert(r@ =~= s@.reverse());
    }
    r
}

} // verus!
