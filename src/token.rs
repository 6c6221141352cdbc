//! Time-limited signed tokens, in the `SharedAccessSignature` form that the hub's
//! broker takes as a password.
use vstd::prelude::*;
use crate::signing::{
    base64_decoded, base64_encoded, decode_base64, encode_base64, form_pair, hmac_sha256,
    hmac_sha256_tag, unix_time_now, url_encode_pair, clock_reading,
};
use crate::text::{append_int, int_text, parse_i64, parsed_int, lemma_int_text_parses, is_digit};

verus! {

/// Seconds in one day of validity.
pub const SECONDS_PER_DAY: i64 = 86400;

/// The longest validity, either way, that a token made at any time the clock can read
/// is sure to express.
pub const MAX_VALIDITY_DAYS: i64 = 100_000_000_000_000;

pub open spec fn valid_days(days: int) -> bool {
    -MAX_VALIDITY_DAYS <= days <= MAX_VALIDITY_DAYS
}

/// A signed token: the url-encoded signature pair and the whole password text.
pub struct SasToken {
    pub sig: String,
    pub sas: String,
}

impl View for SasToken {
    type V = (Seq<char>, Seq<char>);

    open spec fn view(&self) -> (Seq<char>, Seq<char>) {
        (self.sig@, self.sas@)
    }
}

impl SasToken {
    pub open spec fn text(&self) -> Seq<char> {
        "Sig: "@ + self.sig@ + "\nSas: "@ + self.sas@
    }

    /// Both parts of the token, one per line.
    pub fn to_string(&self) -> (r: String)
        ensures
            r@ == self.text(),
    {
        let mut r = String::from_str("Sig: ");
        r.append(self.sig.as_str());
        r.append("\nSas: ");
        r.append(self.sas.as_str());
        assert(r@ =~= self.text());
        r
    }
}

/// Why a token could not be made.
#[derive(Clone, Copy, Debug, PartialEq, Eq, Structural)]
pub enum SasTokenCreateException {
    Failed,
    InvalidPrimaryTokenEncoding,
    InvalidPrimaryTokenLength,
}

impl SasTokenCreateException {
    /// The name of the error, as it is shown to a user.
    pub fn to_string(&self) -> (r: String)
        ensures
            r@ == self.name(),
    {
        match self {
            SasTokenCreateException::Failed => String::from_str("Failed"),
            SasTokenCreateException::InvalidPrimaryTokenEncoding => String::from_str(
                "InvalidPrimaryTokenEncoding",
            ),
            SasTokenCreateException::InvalidPrimaryTokenLength => String::from_str(
                "InvalidPrimaryTokenLength",
            ),
        }
    }

    pub open spec fn name(&self) -> Seq<char> {
        match self {
            SasTokenCreateException::Failed => "Failed"@,
            SasTokenCreateException::InvalidPrimaryTokenEncoding => "InvalidPrimaryTokenEncoding"@,
            SasTokenCreateException::InvalidPrimaryTokenLength => "InvalidPrimaryTokenLength"@,
        }
    }
}

/// The host name of a hub.
pub open spec fn hub_hostname(hub: Seq<char>) -> Seq<char> {
    hub + ".azure-devices.net"@
}

/// The url-encoded resource of a device of a hub.
pub open spec fn hub_url(hub: Seq<char>, device: Seq<char>) -> Seq<char> {
    hub + ".azure-devices.net%2Fdevices%2F"@ + device
}

/// The text that is signed: the resource, a line break, and the expiry.
pub open spec fn string_to_sign(resource: Seq<char>, expiry: int) -> Seq<char> {
    resource + "\n"@ + int_text(expiry)
}

/// The password of a device.
pub open spec fn device_password(
    hub: Seq<char>,
    sig: Seq<char>,
    expiry: int,
    device: Seq<char>,
) -> Seq<char> {
    "SharedAccessSignature sr="@ + hub_url(hub, device) + "&"@ + sig + "&se="@ + int_text(expiry)
        + "&skn="@ + device
}

/// The password of a service policy for a resource.
pub open spec fn service_password(
    sig: Seq<char>,
    expiry: int,
    policy: Seq<char>,
    resource: Seq<char>,
) -> Seq<char> {
    "SharedAccessSignature sr="@ + resource + "&"@ + sig + "&se="@ + int_text(expiry) + "&skn="@
        + policy
}

/// The `sig=...` pair: the base64 HMAC-SHA256 tag of the signed text, form-encoded.
pub open spec fn signature_pair(key: Seq<u8>, to_sign: Seq<char>) -> Seq<char> {
    form_pair("sig"@, base64_encoded(hmac_sha256(key, vstd::utf8::encode_utf8(to_sign))))
}

/// The expiry `days` after `now`, if it fits in an `i64`.
pub open spec fn future_date(now: int, days: int) -> Option<int> {
    let e = now + days * SECONDS_PER_DAY;
    if i64::MIN <= e && e <= i64::MAX {
        Some(e)
    } else {
        None
    }
}

/// The token of a device at time `now`: its signature pair and password, or the error.
pub open spec fn device_token(
    key: Seq<char>,
    days: int,
    hub: Seq<char>,
    device: Seq<char>,
    now: int,
) -> Result<(Seq<char>, Seq<char>), SasTokenCreateException> {
    match base64_decoded(key) {
        None => Err(SasTokenCreateException::InvalidPrimaryTokenEncoding),
        Some(k) => match future_date(now, days) {
            None => Err(SasTokenCreateException::Failed),
            Some(e) => {
                let sig = signature_pair(k, string_to_sign(hub_url(hub, device), e));
                Ok((sig, device_password(hub, sig, e, device)))
            },
        },
    }
}

/// The token of a service policy at time `now`.
pub open spec fn service_token_at_time(
    key: Seq<char>,
    days: int,
    hub: Seq<char>,
    policy: Seq<char>,
    now: int,
) -> Result<(Seq<char>, Seq<char>), SasTokenCreateException> {
    match base64_decoded(key) {
        None => Err(SasTokenCreateException::InvalidPrimaryTokenEncoding),
        Some(k) => match future_date(now, days) {
            None => Err(SasTokenCreateException::Failed),
            Some(e) => {
                let sig = signature_pair(k, string_to_sign(hub_hostname(hub), e));
                Ok((sig, service_password(sig, e, policy, hub_hostname(hub))))
            },
        },
    }
}

/// What a call that makes a token returned, seen as values.
pub open spec fn token_outcome(r: Result<SasToken, SasTokenCreateException>) -> Result<
    (Seq<char>, Seq<char>),
    SasTokenCreateException,
> {
    match r {
        Ok(t) => Ok(t@),
        Err(e) => Err(e),
    }
}

/// What the password of a device names: its hub, its device and its expiry.
pub struct DeviceTokenParts {
    pub hub_name: String,
    pub device_id: String,
    pub expiry: i64,
}

impl View for DeviceTokenParts {
    type V = (Seq<char>, Seq<char>, int);

    open spec fn view(&self) -> (Seq<char>, Seq<char>, int) {
        (self.hub_name@, self.device_id@, self.expiry as int)
    }
}

/// The first position at or after `from` that holds `c`, or the length when none does.
pub open spec fn first_index_from(s: Seq<char>, c: char, from: int) -> int
    decreases s.len() - from,
{
    if from < 0 || from >= s.len() {
        s.len() as int
    } else if s[from] == c {
        from
    } else {
        first_index_from(s, c, from + 1)
    }
}

proof fn lemma_first_index_bounds(s: Seq<char>, c: char, from: int)
    requires
        0 <= from <= s.len(),
    ensures
        from <= first_index_from(s, c, from) <= s.len(),
        first_index_from(s, c, from) < s.len() ==> s[first_index_from(s, c, from)] == c,
    decreases s.len() - from,
{
    if from < s.len() && s[from] != c {
        lemma_first_index_bounds(s, c, from + 1);
    }
}

/// A character that the decimal text of an integer may hold.
pub open spec fn is_int_char(c: char) -> bool {
    is_digit(c) || c == '-'
}

/// Where the run of integer characters that ends at `end` starts.
pub open spec fn int_run_start(s: Seq<char>, end: int) -> int
    decreases end,
{
    if end <= 0 || end > s.len() || !is_int_char(s[end - 1]) {
        end
    } else {
        int_run_start(s, end - 1)
    }
}

/// Whether `s` holds `lit` at position `at`.
pub open spec fn holds_at(s: Seq<char>, at: int, lit: Seq<char>) -> bool {
    0 <= at && at + lit.len() <= s.len() && s.subrange(at, at + lit.len()) == lit
}

/// Reads a device's password back into its hub, device and expiry. The hub runs to
/// the first `.`, the device to the first `&` after the resource; the expiry is the
/// integer between the last `&se=` and the closing `&skn=` with the device.
#[verifier::opaque]
pub open spec fn parsed_device_token(s: Seq<char>) -> Option<(Seq<char>, Seq<char>, int)> {
    let pre = "SharedAccessSignature sr="@;
    let mid = ".azure-devices.net%2Fdevices%2F"@;
    if !holds_at(s, 0, pre) {
        None
    } else {
        let dot = first_index_from(s, '.', pre.len() as int);
        let dev_start = dot + mid.len();
        if !holds_at(s, dot, mid) {
            None
        } else {
            let amp = first_index_from(s, '&', dev_start);
            let device = s.subrange(dev_start, amp);
            let tail = "&skn="@ + device;
            let skn = s.len() - tail.len();
            if !(amp < s.len() && holds_at(s, skn, tail)) {
                None
            } else {
                let exp_start = int_run_start(s, skn);
                if !(exp_start - 4 >= amp && holds_at(s, exp_start - 4, "&se="@)) {
                    None
                } else {
                    match parsed_int(s.subrange(exp_start, skn)) {
                        Some(e) => Some((s.subrange(pre.len() as int, dot), device, e)),
                        None => None,
                    }
                }
            }
        }
    }
}

proof fn lemma_first_index_is(s: Seq<char>, c: char, from: int, k: int)
    requires
        0 <= from <= k < s.len(),
        s[k] == c,
        forall|j: int| from <= j < k ==> s[j] != c,
    ensures
        first_index_from(s, c, from) == k,
    decreases k - from,
{
    if from < k {
        lemma_first_index_is(s, c, from + 1, k);
    }
}

proof fn lemma_int_run_start_is(s: Seq<char>, j: int, end: int)
    requires
        0 < j <= end <= s.len(),
        !is_int_char(s[j - 1]),
        forall|k: int| j <= k < end ==> is_int_char(s[k]),
    ensures
        int_run_start(s, end) == j,
    decreases end - j,
{
    if j < end {
        lemma_int_run_start_is(s, j, end - 1);
    }
}

proof fn lemma_int_text_chars(i: int)
    ensures
        forall|k: int| 0 <= k < int_text(i).len() ==> is_int_char(#[trigger] int_text(i)[k]),
{
    if i < 0 {
        crate::text::lemma_nat_text((-i) as nat);
        let t = int_text(i);
        assert forall|k: int| 0 <= k < t.len() implies is_int_char(#[trigger] t[k]) by {
            if k > 0 {
                assert(t[k] == crate::text::nat_text((-i) as nat)[k - 1]);
            }
        }
    } else {
        crate::text::lemma_nat_text(i as nat);
    }
}

proof fn lemma_parse_from_positions(
    s: Seq<char>,
    hub: Seq<char>,
    device: Seq<char>,
    e: int,
    dot: int,
    amp: int,
    es: int,
)
    requires
        holds_at(s, 0, "SharedAccessSignature sr="@),
        "SharedAccessSignature sr="@.len() == 25,
        ".azure-devices.net%2Fdevices%2F"@.len() == 31,
        first_index_from(s, '.', 25) == dot,
        s.subrange(25, dot) == hub,
        holds_at(s, dot, ".azure-devices.net%2Fdevices%2F"@),
        first_index_from(s, '&', dot + 31) == amp,
        amp < s.len(),
        s.subrange(dot + 31, amp) == device,
        holds_at(s, s.len() - ("&skn="@ + device).len(), "&skn="@ + device),
        int_run_start(s, s.len() - ("&skn="@ + device).len()) == es,
        es - 4 >= amp,
        holds_at(s, es - 4, "&se="@),
        parsed_int(s.subrange(es, s.len() - ("&skn="@ + device).len())) == Some(e),
    ensures
        parsed_device_token(s) == Some((hub, device, e)),
{
    reveal(parsed_device_token);
}

/// Where each piece of a password-shaped text sits.
proof fn lemma_token_layout(
    pre: Seq<char>,
    hub: Seq<char>,
    mid: Seq<char>,
    device: Seq<char>,
    amp_lit: Seq<char>,
    sig: Seq<char>,
    se_lit: Seq<char>,
    et: Seq<char>,
    skn_lit: Seq<char>,
)
    ensures
        ({
            let s = pre + hub + mid + device + amp_lit + sig + se_lit + et + skn_lit + device;
            let dot: int = pre.len() + hub.len() as int;
            let ds: int = dot + mid.len();
            let amp: int = ds + device.len();
            let se: int = amp + amp_lit.len() + sig.len();
            let es: int = se + se_lit.len();
            let skn: int = es + et.len();
            &&& s.len() == skn + skn_lit.len() + device.len()
            &&& s.subrange(0, pre.len() as int) == pre
            &&& s.subrange(pre.len() as int, dot) == hub
            &&& s.subrange(dot, ds) == mid
            &&& s.subrange(ds, amp) == device
            &&& s.subrange(amp, amp + amp_lit.len()) == amp_lit
            &&& s.subrange(se, es) == se_lit
            &&& s.subrange(es, skn) == et
            &&& s.subrange(skn, s.len() as int) == skn_lit + device
        }),
{
    let a1 = pre + hub;
    let a2 = a1 + mid;
    let a3 = a2 + device;
    let a4 = a3 + amp_lit;
    let a5 = a4 + sig;
    let a6 = a5 + se_lit;
    let a7 = a6 + et;
    let tail = skn_lit + device;
    let s = pre + hub + mid + device + amp_lit + sig + se_lit + et + skn_lit + device;
    assert(s =~= a7 + tail);
    let dot = a1.len() as int;
    let ds = a2.len() as int;
    let amp = a3.len() as int;
    let se = a5.len() as int;
    let es = a6.len() as int;
    let skn = a7.len() as int;
    assert(s.subrange(0, skn) =~= a7);
    assert(s.subrange(skn, s.len() as int) =~= tail);
    assert(s.subrange(0, pre.len() as int) =~= pre) by {
        assert(s.subrange(0, pre.len() as int) =~= a7.subrange(0, pre.len() as int));
        assert(a7.subrange(0, pre.len() as int) =~= a1.subrange(0, pre.len() as int));
    }
    assert(s.subrange(pre.len() as int, dot) =~= hub) by {
        assert(s.subrange(pre.len() as int, dot) =~= a7.subrange(pre.len() as int, dot));
        assert(a7.subrange(pre.len() as int, dot) =~= a1.subrange(pre.len() as int, dot));
    }
    assert(s.subrange(dot, ds) =~= mid) by {
        assert(s.subrange(dot, ds) =~= a7.subrange(dot, ds));
        assert(a7.subrange(dot, ds) =~= a2.subrange(dot, ds));
    }
    assert(s.subrange(ds, amp) =~= device) by {
        assert(s.subrange(ds, amp) =~= a7.subrange(ds, amp));
        assert(a7.subrange(ds, amp) =~= a3.subrange(ds, amp));
    }
    assert(s.subrange(amp, amp + amp_lit.len()) =~= amp_lit) by {
        assert(s.subrange(amp, amp + amp_lit.len()) =~= a7.subrange(amp, amp + amp_lit.len()));
        assert(a7.subrange(amp, amp + amp_lit.len()) =~= a4.subrange(amp, amp + amp_lit.len()));
    }
    assert(s.subrange(se, es) =~= se_lit) by {
        assert(s.subrange(se, es) =~= a7.subrange(se, es));
        assert(a7.subrange(se, es) =~= a6.subrange(se, es));
    }
    assert(s.subrange(es, skn) =~= et) by {
        assert(s.subrange(es, skn) =~= a7.subrange(es, skn));
    }
}

/// The password of a device reads back into the hub, device and expiry it was made
/// from, whatever its signature pair, when the hub holds no `.` and the device no `&`.
pub proof fn lemma_device_password_round_trip(
    hub: Seq<char>,
    sig: Seq<char>,
    expiry: int,
    device: Seq<char>,
)
    requires
        i64::MIN <= expiry <= i64::MAX,
        forall|k: int| 0 <= k < hub.len() ==> hub[k] != '.',
        forall|k: int| 0 <= k < device.len() ==> device[k] != '&',
    ensures
        parsed_device_token(device_password(hub, sig, expiry, device)) == Some(
            (hub, device, expiry),
        ),
{
    let pre = "SharedAccessSignature sr="@;
    let mid = ".azure-devices.net%2Fdevices%2F"@;
    let amp_lit = "&"@;
    let se_lit = "&se="@;
    let skn_lit = "&skn="@;
    let et = int_text(expiry);
    let s = device_password(hub, sig, expiry, device);
    assert(s =~= pre + hub + mid + device + amp_lit + sig + se_lit + et + skn_lit + device);
    lemma_token_layout(pre, hub, mid, device, amp_lit, sig, se_lit, et, skn_lit);
    reveal_strlit("SharedAccessSignature sr=");
    reveal_strlit(".azure-devices.net%2Fdevices%2F");
    reveal_strlit("&");
    reveal_strlit("&se=");
    reveal_strlit("&skn=");
    let dot: int = 25 + hub.len() as int;
    let ds: int = dot + 31;
    let amp: int = ds + device.len() as int;
    let es: int = amp + 1 + sig.len() as int + 4;
    let skn: int = es + et.len() as int;
    assert(s[dot] == '.') by {
        assert(s[dot] == s.subrange(dot, ds)[0]);
    }
    assert forall|j: int| 25 <= j < dot implies s[j] != '.' by {
        assert(s[j] == s.subrange(25, dot)[j - 25]);
    }
    lemma_first_index_is(s, '.', 25, dot);
    assert(s[amp] == '&') by {
        assert(s[amp] == s.subrange(amp, amp + 1)[0]);
    }
    assert forall|j: int| ds <= j < amp implies s[j] != '&' by {
        assert(s[j] == s.subrange(ds, amp)[j - ds]);
    }
    lemma_first_index_is(s, '&', ds, amp);
    lemma_int_text_chars(expiry);
    assert(s[es - 1] == '=') by {
        assert(s[es - 1] == s.subrange(es - 4, es)[3]);
    }
    assert forall|k: int| es <= k < skn implies is_int_char(s[k]) by {
        assert(s[k] == s.subrange(es, skn)[k - es]);
    }
    lemma_int_run_start_is(s, es, skn);
    lemma_int_text_parses(expiry);
    lemma_parse_from_positions(s, hub, device, expiry, dot, amp, es);
}

/// A token that signing makes for a device reads back into the hub, device and
/// expiry it was made from, when the hub holds no `.` and the device no `&`.
pub proof fn lemma_device_token_round_trip(
    key: Seq<char>,
    days: int,
    hub: Seq<char>,
    device: Seq<char>,
    now: int,
)
    requires
        forall|k: int| 0 <= k < hub.len() ==> hub[k] != '.',
        forall|k: int| 0 <= k < device.len() ==> device[k] != '&',
    ensures
        base64_decoded(key) is Some && valid_days(days) && clock_reading(now) ==> device_token(
            key,
            days,
            hub,
            device,
            now,
        ) is Ok,
        device_token(key, days, hub, device, now) matches Ok(t) ==> parsed_device_token(t.1)
            == Some((hub, device, now + days * SECONDS_PER_DAY)),
{
    lemma_token_made(key, days, hub, device, now);
    if let Ok(t) = device_token(key, days, hub, device, now) {
        let e = now + days * SECONDS_PER_DAY;
        lemma_device_password_round_trip(hub, t.0, e, device);
    }
}

/// At any time the clock can read, a key that decodes and a validity within bounds
/// always give a token, of either form.
pub proof fn lemma_token_made(
    key: Seq<char>,
    days: int,
    hub: Seq<char>,
    device: Seq<char>,
    now: int,
)
    ensures
        valid_days(days) && clock_reading(now) ==> future_date(now, days) == Some(
            now + days * SECONDS_PER_DAY,
        ),
        base64_decoded(key) is Some && valid_days(days) && clock_reading(now) ==> {
            &&& device_token(key, days, hub, device, now) is Ok
            &&& service_token_at_time(key, days, hub, device, now) is Ok
        },
{
    if valid_days(days) && clock_reading(now) {
        assert(-MAX_VALIDITY_DAYS * SECONDS_PER_DAY <= days * SECONDS_PER_DAY
            <= MAX_VALIDITY_DAYS * SECONDS_PER_DAY) by (nonlinear_arith)
            requires
                -MAX_VALIDITY_DAYS <= days <= MAX_VALIDITY_DAYS,
        ;
    }
}

/// Signing is a function of its inputs: the same key, validity, hub, device and time
/// give the same token. At two times, the two tokens share their form and differ at
/// most in the expiry field and the signature pair.
pub proof fn lemma_device_token_deterministic(
    key: Seq<char>,
    days: int,
    hub: Seq<char>,
    device: Seq<char>,
    now1: int,
    now2: int,
)
    ensures
        now1 == now2 ==> device_token(key, days, hub, device, now1) == device_token(
            key,
            days,
            hub,
            device,
            now2,
        ),
        base64_decoded(key) is Some && valid_days(days) && clock_reading(now1) && clock_reading(
            now2,
        ) ==> ({
            &&& device_token(key, days, hub, device, now1) matches Ok(t1)
            &&& device_token(key, days, hub, device, now2) matches Ok(t2)
            &&& t1.1 == device_password(hub, t1.0, now1 + days * SECONDS_PER_DAY, device)
            &&& t2.1 == device_password(hub, t2.0, now2 + days * SECONDS_PER_DAY, device)
        }),
{
    lemma_token_made(key, days, hub, device, now1);
    lemma_token_made(key, days, hub, device, now2);
}

/// Whether `s` holds `lit` at position `at`.
fn text_at(s: &str, at: usize, lit: &str) -> (r: bool)
    ensures
        r == holds_at(s@, at as int, lit@),
{
    let n = s.unicode_len();
    let m = lit.unicode_len();
    if at > n || m > n - at {
        return false;
    }
    let part = String::from_str(s.substring_char(at, at + m));
    let whole = String::from_str(lit);
    part == whole
}

/// The first position at or after `from` that holds `c`, or the length when none does.
fn find_char_from(s: &str, c: char, from: usize) -> (r: usize)
    requires
        from <= s@.len(),
    ensures
        r as int == first_index_from(s@, c, from as int),
        from <= r <= s@.len(),
{
    proof {
        lemma_first_index_bounds(s@, c, from as int);
    }
    let n = s.unicode_len();
    let mut k = from;
    while k < n
        invariant
            n == s@.len(),
            from <= k <= n,
            first_index_from(s@, c, from as int) == first_index_from(s@, c, k as int),
        decreases n - k,
    {
        if s.get_char(k) == c {
            return k;
        }
        k = k + 1;
    }
    k
}

/// Where the run of integer characters that ends at `end` starts.
fn find_int_run_start(s: &str, end: usize) -> (r: usize)
    requires
        end <= s@.len(),
    ensures
        r as int == int_run_start(s@, end as int),
        r <= end,
{
    let mut k = end;
    while k > 0
        invariant
            k <= end <= s@.len(),
            int_run_start(s@, end as int) == int_run_start(s@, k as int),
        decreases k,
    {
        let c = s.get_char(k - 1);
        if !(('0' <= c && c <= '9') || c == '-') {
            return k;
        }
        k = k - 1;
    }
    k
}

/// Reads a device's password back into its hub, device and expiry.
pub fn parse_device_token(sas: &str) -> (r: Option<DeviceTokenParts>)
    ensures
        match parsed_device_token(sas@) {
            Some(p) => r matches Some(q) && q@ == p,
            None => r is None,
        },
{
    proof {
        reveal(parsed_device_token);
    }
    let pre = "SharedAccessSignature sr=";
    let mid = ".azure-devices.net%2Fdevices%2F";
    let n = sas.unicode_len();
    if !text_at(sas, 0, pre) {
        return None;
    }
    let pre_len = pre.unicode_len();
    let dot = find_char_from(sas, '.', pre_len);
    if !text_at(sas, dot, mid) {
        return None;
    }
    let dev_start = dot + mid.unicode_len();
    let amp = find_char_from(sas, '&', dev_start);
    if amp >= n {
        return None;
    }
    let device = String::from_str(sas.substring_char(dev_start, amp));
    let mut tail = String::from_str("&skn=");
    tail.append(device.as_str());
    let tail_len = tail.unicode_len();
    if tail_len > n {
        return None;
    }
    let skn = n - tail_len;
    if !text_at(sas, skn, tail.as_str()) {
        return None;
    }
    let exp_start = find_int_run_start(sas, skn);
    if exp_start < 4 || exp_start - 4 < amp || !text_at(sas, exp_start - 4, "&se=") {
        return None;
    }
    match parse_i64(sas.substring_char(exp_start, skn)) {
        Some(e) => {
            let hub_name = String::from_str(sas.substring_char(pre_len, dot));
            Some(DeviceTokenParts { hub_name, device_id: device, expiry: e })
        },
        None => None,
    }
}

impl SasToken {
    /// Makes the token of a device, valid for `days` days from now.
    pub fn new(primary_key: &str, days: i64, hub_name: &str, device_id: &str) -> (r: Result<
        SasToken,
        SasTokenCreateException,
    >)
        ensures
            exists|now: i64|
                clock_reading(now as int) && token_outcome(r) == #[trigger] device_token(
                    primary_key@,
                    days as int,
                    hub_name@,
                    device_id@,
                    now as int,
                ),
            base64_decoded(primary_key@) is Some && valid_days(days as int) ==> r is Ok,
    {
        let now = unix_time_now();
        proof {
            lemma_token_made(primary_key@, days as int, hub_name@, device_id@, now as int);
        }
        SasToken::new_at(primary_key, days, hub_name, device_id, now)
    }

    /// Makes the token of a device at time `now`, valid for `days` days.
    pub fn new_at(primary_key: &str, days: i64, hub_name: &str, device_id: &str, now: i64) -> (r:
        Result<SasToken, SasTokenCreateException>)
        ensures
            token_outcome(r) == device_token(
                primary_key@,
                days as int,
                hub_name@,
                device_id@,
                now as int,
            ),
    {
        if !SasToken::is_key_decode_good(primary_key) {
            return Err(SasTokenCreateException::InvalidPrimaryTokenEncoding);
        }
        if !SasToken::is_key_length_good(primary_key) {
            return Err(SasTokenCreateException::InvalidPrimaryTokenLength);
        }
        let timestamp = match SasToken::future_date_from(now, days) {
            Some(t) => t,
            None => return Err(SasTokenCreateException::Failed),
        };
        let hub_url = SasToken::create_hub_url(hub_name, device_id);
        let to_sign = SasToken::create_to_sign(hub_url, timestamp);
        let key = match decode_base64(primary_key) {
            Some(k) => k,
            None => return Err(SasTokenCreateException::InvalidPrimaryTokenEncoding),
        };
        let token_result = match SasToken::sign(&key, &to_sign) {
            Some(s) => s,
            None => return Err(SasTokenCreateException::Failed),
        };
        let sas = SasToken::format_password_token(hub_name, &token_result, timestamp, device_id);
        Ok(SasToken { sig: token_result, sas })
    }

    /// Makes the token of a service policy of a hub, valid for `days` days from now.
    pub fn service_token(service_key: &str, days: i64, hub_name: &str, service: &str) -> (r:
        Result<SasToken, SasTokenCreateException>)
        ensures
            exists|now: i64|
                clock_reading(now as int) && token_outcome(r) == #[trigger] service_token_at_time(
                    service_key@,
                    days as int,
                    hub_name@,
                    service@,
                    now as int,
                ),
            base64_decoded(service_key@) is Some && valid_days(days as int) ==> r is Ok,
    {
        let now = unix_time_now();
        proof {
            lemma_token_made(service_key@, days as int, hub_name@, service@, now as int);
        }
        SasToken::service_token_at(service_key, days, hub_name, service, now)
    }

    /// Makes the token of a service policy of a hub at time `now`, valid for `days` days.
    pub fn service_token_at(
        service_key: &str,
        days: i64,
        hub_name: &str,
        service: &str,
        now: i64,
    ) -> (r: Result<SasToken, SasTokenCreateException>)
        ensures
            token_outcome(r) == service_token_at_time(
                service_key@,
                days as int,
                hub_name@,
                service@,
                now as int,
            ),
    {
        if !SasToken::is_key_decode_good(service_key) {
            return Err(SasTokenCreateException::InvalidPrimaryTokenEncoding);
        }
        if !SasToken::is_key_length_good(service_key) {
            return Err(SasTokenCreateException::InvalidPrimaryTokenLength);
        }
        let hostname = SasToken::hostname_from_iothub_name(String::from_str(hub_name));
        let timestamp = match SasToken::future_date_from(now, days) {
            Some(t) => t,
            None => return Err(SasTokenCreateException::Failed),
        };
        let to_sign = SasToken::create_to_sign(hostname.clone(), timestamp);
        let key = match decode_base64(service_key) {
            Some(k) => k,
            None => return Err(SasTokenCreateException::InvalidPrimaryTokenEncoding),
        };
        let token_result = match SasToken::sign(&key, &to_sign) {
            Some(s) => s,
            None => return Err(SasTokenCreateException::Failed),
        };
        let sas = SasToken::format_password_token_service(
            &token_result,
            timestamp,
            service,
            hostname.as_str(),
        );
        Ok(SasToken { sig: token_result, sas })
    }

    /// The `sig=...` pair of a text signed with a key.
    fn sign(key: &Vec<u8>, to_sign: &String) -> (r: Option<String>)
        ensures
            r is Some,
            r matches Some(s) ==> s@ == signature_pair(key@, to_sign@),
    {
        let tag = match hmac_sha256_tag(key.as_slice(), to_sign.as_str().as_bytes()) {
            Some(t) => t,
            None => return None,
        };
        let signature = encode_base64(tag.as_slice());
        url_encode_pair("sig", signature.as_str())
    }

    /// Whether a key decodes to bytes that HMAC-SHA256 can key with.
    pub fn is_key_length_good(key: &str) -> (r: bool)
        ensures
            r == base64_decoded(key@) is Some,
    {
        match decode_base64(key) {
            None => false,
            Some(bytes) => {
                let empty: Vec<u8> = Vec::new();
                hmac_sha256_tag(bytes.as_slice(), empty.as_slice()).is_some()
            },
        }
    }

    /// Whether a key is base64 text.
    pub fn is_key_decode_good(key: &str) -> (r: bool)
        ensures
            r == base64_decoded(key@) is Some,
    {
        decode_base64(key).is_some()
    }

    pub fn hostname_from_iothub_name(name: String) -> (r: String)
        ensures
            r@ == hub_hostname(name@),
    {
        let mut r = name;
        r.append(".azure-devices.net");
        r
    }

    /// The password of a device, from its signature pair and expiry.
    pub fn format_password_token(
        hub_name: &str,
        token_result: &String,
        expiry_timestamp: i64,
        device_id: &str,
    ) -> (r: String)
        ensures
            r@ == device_password(hub_name@, token_result@, expiry_timestamp as int, device_id@),
    {
        let mut r = String::from_str("SharedAccessSignature sr=");
        r.append(SasToken::create_hub_url(hub_name, device_id).as_str());
        r.append("&");
        r.append(token_result.as_str());
        r.append("&se=");
        append_int(&mut r, expiry_timestamp);
        r.append("&skn=");
        r.append(device_id);
        assert(r@ =~= device_password(
            hub_name@,
            token_result@,
            expiry_timestamp as int,
            device_id@,
        ));
        r
    }

    /// The password of a service policy, from its signature pair, expiry and resource.
    pub fn format_password_token_service(
        token_result: &String,
        expiry_timestamp: i64,
        policy_name: &str,
        encoded_url: &str,
    ) -> (r: String)
        ensures
            r@ == service_password(token_result@, expiry_timestamp as int, policy_name@, encoded_url@),
    {
        let mut r = String::from_str("SharedAccessSignature sr=");
        r.append(encoded_url);
        r.append("&");
        r.append(token_result.as_str());
        r.append("&se=");
        append_int(&mut r, expiry_timestamp);
        r.append("&skn=");
        r.append(policy_name);
        assert(r@ =~= service_password(
            token_result@,
            expiry_timestamp as int,
            policy_name@,
            encoded_url@,
        ));
        r
    }

    pub fn create_hub_url(hub_name: &str, device_id: &str) -> (r: String)
        ensures
            r@ == hub_url(hub_name@, device_id@),
    {
        let mut r = String::from_str(hub_name);
        r.append(".azure-devices.net%2Fdevices%2F");
        r.append(device_id);
        assert(r@ =~= hub_url(hub_name@, device_id@));
        r
    }

    /// The expiry `days_in_future` days from now, in seconds since the Unix epoch;
    /// `None` when it does not fit in an `i64`.
    pub fn create_future_date(days_in_future: i64) -> (r: Option<i64>)
        ensures
            exists|now: i64|
                clock_reading(now as int) && match #[trigger] future_date(
                    now as int,
                    days_in_future as int,
                ) {
                    Some(e) => r == Some(e as i64),
                    None => r is None,
                },
            valid_days(days_in_future as int) ==> r is Some,
    {
        let now = unix_time_now();
        proof {
            lemma_token_made(Seq::empty(), days_in_future as int, Seq::empty(), Seq::empty(), now as int);
        }
        SasToken::future_date_from(now, days_in_future)
    }

    /// The expiry `days_in_future` days after `now`.
    pub fn future_date_from(now: i64, days_in_future: i64) -> (r: Option<i64>)
        ensures
            match future_date(now as int, days_in_future as int) {
                Some(e) => r == Some(e as i64),
                None => r is None,
            },
    {
        let e: i128 = now as i128 + days_in_future as i128 * SECONDS_PER_DAY as i128;
        if e < i64::MIN as i128 || e > i64::MAX as i128 {
            None
        } else {
            Some(e as i64)
        }
    }

    pub fn create_to_sign(hub_url: String, expiry_timestamp: i64) -> (r: String)
        ensures
            r@ == string_to_sign(hub_url@, expiry_timestamp as int),
    {
        let mut r = hub_url;
        r.append("\n");
        append_int(&mut r, expiry_timestamp);
        assert(r@ =~= string_to_sign(hub_url@, expiry_timestamp as int));
        r
    }
}

} // verus!
