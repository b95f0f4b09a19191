use vstd::prelude::*;

use crate::error::{ServiceError, ServiceErrorView};
use crate::phone::{parse_phone, phone_is_valid, phone_number_valid, phone_parse, PhoneParseError};

verus! {

/// A request to send a single SMS message.
#[derive(Clone, Debug, PartialEq, Eq)]
pub struct ZMQSendSmsMessage {
    pub sender_id: String,
    pub phone_number: String,
    pub message: String,
}

/// Number of leading characters of a phone number left readable by masking.
pub open spec fn mask_keep() -> nat {
    4
}

/// Number of characters replaced by `*` after the readable prefix.
pub open spec fn mask_hidden() -> nat {
    6
}

/// `n` stars.
pub open spec fn stars(n: nat) -> Seq<char> {
    Seq::new(n, |i: int| '*')
}

/// The masked form of a phone number: its first four characters (all of
/// them when it is shorter), six `*`, then whatever follows the ten first
/// characters.
pub open spec fn masked_phone(p: Seq<char>) -> Seq<char> {
    let keep = if p.len() < mask_keep() { p.len() } else { mask_keep() };
    let rest = if p.len() < mask_keep() + mask_hidden() { p.len() } else { mask_keep() + mask_hidden() };
    p.take(keep as int) + stars(mask_hidden()) + p.skip(rest as int)
}

/// A request with a sender, a valid phone number and a non-empty body is
/// accepted, whatever the body's length or characters.
pub proof fn lemma_complete_request_is_valid(sender_id: Seq<char>, phone_number: Seq<char>, message: Seq<char>)
    requires
        sender_id.len() > 0,
        phone_parse(phone_number) is Ok,
        phone_number_valid(phone_parse(phone_number)->Ok_0),
        message.len() > 0,
    ensures
        validation_result(sender_id, phone_number, message) == Ok::<(), ServiceErrorView>(()),
{
}

/// Validation fails on exactly these requests: a missing sender, a phone
/// number that does not parse or is not valid, or an empty body.
pub proof fn lemma_validation_fails_exactly(sender_id: Seq<char>, phone_number: Seq<char>, message: Seq<char>)
    ensures
        validation_result(sender_id, phone_number, message) is Err <==> (sender_id.len() == 0
            || phone_parse(phone_number) is Err
            || !phone_number_valid(phone_parse(phone_number)->Ok_0)
            || message.len() == 0),
{
}

/// A missing sender is reported first, whatever the phone number and body.
pub proof fn lemma_missing_sender_first(phone_number: Seq<char>, message: Seq<char>)
    ensures
        validation_result(Seq::empty(), phone_number, message)
            == Err::<(), ServiceErrorView>(ServiceErrorView::InvalidMessage("sender_id is empty"@)),
{
}

/// With a sender given, a phone number that does not parse is reported with
/// the parser's error kind, and one that parses but is not valid as
/// `NoNumber`, whatever the body.
pub proof fn lemma_bad_phone_second(sender_id: Seq<char>, phone_number: Seq<char>, message: Seq<char>)
    requires
        sender_id.len() > 0,
    ensures
        phone_parse(phone_number) is Err ==> validation_result(sender_id, phone_number, message)
            == Err::<(), ServiceErrorView>(ServiceErrorView::InvalidPhoneNumber(phone_parse(phone_number)->Err_0)),
        phone_parse(phone_number) is Ok && !phone_number_valid(phone_parse(phone_number)->Ok_0)
            ==> validation_result(sender_id, phone_number, message)
            == Err::<(), ServiceErrorView>(ServiceErrorView::InvalidPhoneNumber(PhoneParseError::NoNumber)),
{
}

/// An empty body is rejected once sender and phone number pass, whatever
/// the phone number.
pub proof fn lemma_empty_message_rejected(sender_id: Seq<char>, phone_number: Seq<char>)
    requires
        sender_id.len() > 0,
        phone_parse(phone_number) is Ok,
        phone_number_valid(phone_parse(phone_number)->Ok_0),
    ensures
        validation_result(sender_id, phone_number, Seq::empty())
            == Err::<(), ServiceErrorView>(ServiceErrorView::InvalidMessage("message is empty"@)),
{
}

/// The masked form of a number of ten characters or more is its first
/// four characters, six stars, and everything from its eleventh character
/// on; a number of fewer than four characters is kept whole and followed
/// by six stars.
pub proof fn lemma_mask_parts(p: Seq<char>)
    ensures
        p.len() >= 10 ==> {
            let m = masked_phone(p);
            &&& m.len() == p.len()
            &&& forall|i: int| 0 <= i < 4 ==> #[trigger] m[i] == p[i]
            &&& forall|i: int| 4 <= i < 10 ==> #[trigger] m[i] == '*'
            &&& forall|i: int| 10 <= i < p.len() ==> #[trigger] m[i] == p[i]
        },
        p.len() < 4 ==> masked_phone(p) == p + seq!['*', '*', '*', '*', '*', '*'],
{
    assert(p.len() < 4 ==> masked_phone(p) =~= p + seq!['*', '*', '*', '*', '*', '*']);
}

/// Masking keeps the length of a number of ten characters or more; a
/// shorter one comes out as its first four characters (all of it when it
/// is shorter) followed by six stars.
pub proof fn lemma_mask_length(p: Seq<char>)
    ensures
        masked_phone(p).len() == if p.len() >= 10 {
            p.len() as int
        } else if p.len() >= 4 {
            10int
        } else {
            p.len() + 6int
        },
{
}

/// The masked form reveals nothing of the characters at positions four to
/// nine: two numbers of one length that differ only there mask alike.
pub proof fn lemma_mask_hides_middle(p: Seq<char>, q: Seq<char>)
    requires
        p.len() == q.len(),
        forall|i: int| 0 <= i < p.len() && !(4 <= i < 10) ==> p[i] == q[i],
    ensures
        masked_phone(p) == masked_phone(q),
{
    assert(masked_phone(p) =~= masked_phone(q));
}

/// Masking a number of at least four characters a second time changes
/// nothing.
pub proof fn lemma_mask_idempotent(p: Seq<char>)
    requires
        p.len() >= 4,
    ensures
        masked_phone(masked_phone(p)) == masked_phone(p),
{
    let m = masked_phone(p);
    assert(masked_phone(m) =~= m);
}

pub assume_specification[ String::push ](s: &mut String, ch: char)
    ensures
        final(s)@ == old(s)@.push(ch),
;

/// Appends `n` stars to `out`.
fn push_stars(out: &mut String, n: usize)
    ensures
        final(out)@ == old(out)@ + stars(n as nat),
{
    let ghost base = out@;
    let mut k: usize = 0;
    while k < n
        invariant
            k <= n,
            out@ == base + stars(k as nat),
        decreases n - k,
    {
        out.push('*');
        k = k + 1;
        assert(out@ == base + stars(k as nat));
    }
}

/// What has been written once the first `idx` characters of `p` were seen.
spec fn masked_so_far(p: Seq<char>, idx: int) -> Seq<char> {
    if idx <= mask_keep() {
        p.take(idx)
    } else {
        let from = if idx < mask_keep() + mask_hidden() { idx } else { (mask_keep() + mask_hidden()) as int };
        p.take(mask_keep() as int) + stars(mask_hidden()) + p.subrange(from, idx)
    }
}

/// What validating a request with these fields gives: the first failing
/// check, in the order sender, phone number, message body.
pub open spec fn validation_result(sender_id: Seq<char>, phone_number: Seq<char>, message: Seq<char>) -> Result<(), ServiceErrorView> {
    if sender_id.len() == 0 {
        Err(ServiceErrorView::InvalidMessage("sender_id is empty"@))
    } else {
        match phone_parse(phone_number) {
            Err(e) => Err(ServiceErrorView::InvalidPhoneNumber(e)),
            Ok(d) => if !phone_number_valid(d) {
                Err(ServiceErrorView::InvalidPhoneNumber(PhoneParseError::NoNumber))
            } else if message.len() == 0 {
                Err(ServiceErrorView::InvalidMessage("message is empty"@))
            } else {
                Ok(())
            },
        }
    }
}

/// The view of a result whose error is a `ServiceError`.
pub open spec fn result_view<T>(r: Result<T, ServiceError>) -> Result<T, ServiceErrorView> {
    match r {
        Ok(v) => Ok(v),
        Err(e) => Err(e@),
    }
}

impl ZMQSendSmsMessage {
    /// Checks that the sender is given, that the phone number is a valid
    /// phone number, and that the body is not empty, in that order.
    pub fn validate(&self) -> (r: Result<(), ServiceError>)
        ensures
            result_view(r) == validation_result(self.sender_id@, self.phone_number@, self.message@),
            r is Ok <==> (self.sender_id@.len() > 0 && phone_parse(self.phone_number@) is Ok
                && phone_number_valid(phone_parse(self.phone_number@)->Ok_0) && self.message@.len() > 0),
            self.sender_id@.len() > 0 && phone_parse(self.phone_number@) is Ok
                && phone_number_valid(phone_parse(self.phone_number@)->Ok_0) && self.message@.len() == 0
                ==> (r matches Err(ServiceError::InvalidMessage(m)) && m@ == "message is empty"@),
    {
        if self.sender_id.as_str().is_empty() {
            return Err(ServiceError::InvalidMessage("sender_id is empty".to_owned()));
        }
        let phone = match parse_phone(self.phone_number.as_str()) {
            Ok(p) => p,
            Err(e) => return Err(ServiceError::InvalidPhoneNumber(e)),
        };
        if !phone_is_valid(&phone) {
            return Err(ServiceError::InvalidPhoneNumber(PhoneParseError::NoNumber));
        }
        if self.message.as_str().is_empty() {
            return Err(ServiceError::InvalidMessage("message is empty".to_owned()));
        }
        Ok(())
    }

    /// Phone number for logging: the six characters after the fourth are
    /// replaced by `*`, the others are kept.
    pub fn mask_phone(&self) -> (out: String)
        ensures
            out@ == masked_phone(self.phone_number@),
    {
        let ghost p = self.phone_number@;
        let mut out = String::new();
        // position of the next character, counted up to ten
        let mut pos: usize = 0;
        for c in it: self.phone_number.as_str().chars()
            invariant
                it.seq() == p,
                pos as int == if it.index() < 10 { it.index() } else { 10 },
                out@ == masked_so_far(p, it.index()),
        {
            let ghost idx = it.index();
            if pos < 4 {
                out.push(c);
            } else {
                if pos == 4 {
                    push_stars(&mut out, 6);
                }
                if pos >= 10 {
                    out.push(c);
                }
            }
            if pos < 10 {
                pos = pos + 1;
            }
            assert(out@ == masked_so_far(p, idx + 1));
        }
        if pos <= 4 {
            push_stars(&mut out, 6);
        }
        out
    }
}

} // verus!
