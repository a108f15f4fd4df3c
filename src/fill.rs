use vstd::prelude::*;
use vstd::utf8::encode_utf8;
use crate::params::JitIxParams;

verus! {

/// Whether `p` occurs in `s` at index `i`.
pub open spec fn occurs_at(s: Seq<u8>, p: Seq<u8>, i: int) -> bool {
    0 <= i && i + p.len() <= s.len() && s.subrange(i, i + p.len()) == p
}

pub open spec fn contains_bytes(s: Seq<u8>, p: Seq<u8>) -> bool {
    exists|i: int| occurs_at(s, p, i)
}

/// `0x1770`: the taker price does not cross the maker's bid yet.
pub open spec fn bid_not_crossed_code() -> Seq<u8> {
    seq![48u8, 120u8, 49u8, 55u8, 55u8, 48u8]
}

/// `0x1771`: the taker price does not cross the maker's ask yet.
pub open spec fn ask_not_crossed_code() -> Seq<u8> {
    seq![48u8, 120u8, 49u8, 55u8, 55u8, 49u8]
}

/// `0x1779`: the maker's order did not fill.
pub open spec fn no_fill_code() -> Seq<u8> {
    seq![48u8, 120u8, 49u8, 55u8, 55u8, 57u8]
}

/// `0x1793`: the exchange found the oracle invalid.
pub open spec fn invalid_oracle_code() -> Seq<u8> {
    seq![48u8, 120u8, 49u8, 55u8, 57u8, 51u8]
}

/// Whether an error message names a failure worth another attempt: a price that does not
/// cross yet, a fill that did not happen, or an invalid oracle. Every other failure,
/// an already filled order among them, ends the run.
pub open spec fn is_transient(msg: Seq<u8>) -> bool {
    contains_bytes(msg, bid_not_crossed_code()) || contains_bytes(msg, ask_not_crossed_code())
        || contains_bytes(msg, no_fill_code()) || contains_bytes(msg, invalid_oracle_code())
}

fn find_bytes(s: &[u8], p: &Vec<u8>) -> (r: bool)
    ensures
        r == contains_bytes(s@, p@),
{
    if p.len() > s.len() {
        assert forall|i: int| !occurs_at(s@, p@, i) by {}
        return false;
    }
    let mut i: usize = 0;
    while i <= s.len() - p.len()
        invariant
            p.len() <= s.len(),
            i <= s.len() - p.len() + 1,
            forall|k: int| 0 <= k < i ==> !occurs_at(s@, p@, k),
        decreases s.len() - p.len() + 1 - i,
    {
        let mut j: usize = 0;
        let mut same = true;
        while j < p.len()
            invariant
                j <= p.len(),
                i + p.len() <= s.len(),
                same == (forall|m: int| 0 <= m < j ==> s@[i + m] == p@[m]),
            decreases p.len() - j,
        {
            if s[i + j] != p[j] {
                same = false;
            }
            j = j + 1;
        }
        if same {
            assert(s@.subrange(i as int, i + p.len()) =~= p@);
            assert(occurs_at(s@, p@, i as int));
            return true;
        }
        assert(!occurs_at(s@, p@, i as int)) by {
            let m = choose|m: int| 0 <= m < p.len() && s@[i + m] != p@[m];
            if s@.subrange(i as int, i + p.len()) == p@ {
                assert(s@.subrange(i as int, i + p.len())[m] == s@[i + m]);
            }
        }
        i = i + 1;
    }
    assert forall|k: int| !occurs_at(s@, p@, k) by {
        if 0 <= k && k + p.len() <= s.len() {
            assert(k < i);
        }
    }
    false
}

/// Sorts a failed attempt's error message: `None` where another attempt is worth making,
/// `Some(())` where the run for the order named `order_sig` stops.
pub fn check_err(err: String, order_sig: &str) -> (r: Option<()>)
    ensures
        r is None <==> is_transient(encode_utf8(err@)),
{
    let msg = err.as_str().as_bytes();
    let bid = vec![48u8, 120u8, 49u8, 55u8, 55u8, 48u8];
    let ask = vec![48u8, 120u8, 49u8, 55u8, 55u8, 49u8];
    let no_fill = vec![48u8, 120u8, 49u8, 55u8, 55u8, 57u8];
    let oracle = vec![48u8, 120u8, 49u8, 55u8, 57u8, 51u8];
    proof {
        assert(bid@ =~= bid_not_crossed_code());
        assert(ask@ =~= ask_not_crossed_code());
        assert(no_fill@ =~= no_fill_code());
        assert(oracle@ =~= invalid_oracle_code());
    }
    if find_bytes(msg, &bid) || find_bytes(msg, &ask) {
        None
    } else if find_bytes(msg, &no_fill) {
        None
    } else if find_bytes(msg, &oracle) {
        None
    } else {
        Some(())
    }
}

} // verus!

verus! {

/// What came of submitting one counter-order.
#[derive(Debug)]
pub enum AttemptOutcome {
    /// The transaction was confirmed.
    Filled,
    /// The taker's order was not found, so nothing was sent; the run ends.
    OrderNotFound,
    /// The transaction failed with this message.
    Failed(String),
}

/// How a fill run ended.
#[derive(Clone, Copy, Debug, PartialEq, Eq, Structural)]
pub enum FillEnd {
    Filled,
    /// The attempts ran out, the taker's order shrank below a viable size, or it is gone.
    Expired,
    /// A failure that another attempt would not cure.
    Terminal,
    /// The envelope has no bounds for the instrument.
    NotConfigured,
}

/// What a fill run does next.
#[derive(Clone, Copy, Debug, PartialEq, Eq, Structural)]
pub enum FillStep {
    /// Submit a counter-order computed from fresh state.
    Submit,
    /// Wait `RETRY_DELAY_MS`, then begin the next attempt.
    RetryAfterDelay,
    Stop(FillEnd),
}

/// Pause between an attempt that failed for a passing reason and the next one.
pub const RETRY_DELAY_MS: u64 = 1000;

/// Attempts at one auction by the aggressive strategy: at most one attempt for each slot
/// of the auction, and none once the auction's window has passed; each is submitted as
/// soon as it is computed.
#[derive(Clone, Copy, Debug)]
pub struct ShotgunRun {
    attempts: u32,
    start_slot: u64,
    duration: u8,
}

/// The step that follows a submission's outcome.
pub open spec fn step_after(outcome: AttemptOutcome) -> FillStep {
    match outcome {
        AttemptOutcome::Filled => FillStep::Stop(FillEnd::Filled),
        AttemptOutcome::OrderNotFound => FillStep::Stop(FillEnd::Expired),
        AttemptOutcome::Failed(msg) => if is_transient(encode_utf8(msg@)) {
            FillStep::RetryAfterDelay
        } else {
            FillStep::Stop(FillEnd::Terminal)
        },
    }
}

/// Whether a taker order with `remaining` left is still worth an attempt: something is
/// left, and at least the minimum order size.
pub open spec fn viable(remaining: u64, min_order_size: u64) -> bool {
    remaining > 0 && remaining >= min_order_size
}

impl ShotgunRun {
    pub closed spec fn spec_attempts(&self) -> u32 {
        self.attempts
    }

    pub closed spec fn spec_start_slot(&self) -> u64 {
        self.start_slot
    }

    pub closed spec fn spec_duration(&self) -> u8 {
        self.duration
    }

    pub open spec fn wf(&self) -> bool {
        self.spec_attempts() <= self.spec_duration()
    }

    /// Whether the run may still make an attempt at slot `slot`: it has made fewer
    /// attempts than the auction has slots, and the auction's window is still open.
    pub open spec fn has_attempt_left(&self, slot: u64) -> bool {
        self.spec_attempts() < self.spec_duration() && slot < self.spec_start_slot() + self.spec_duration()
    }

    /// A run at an auction that started at `start_slot` and lasts `auction_duration`
    /// slots, with no attempt made.
    pub fn new(start_slot: u64, auction_duration: u8) -> (r: Self)
        ensures
            r.wf(),
            r.spec_attempts() == 0,
            r.spec_start_slot() == start_slot,
            r.spec_duration() == auction_duration,
    {
        ShotgunRun { attempts: 0, start_slot, duration: auction_duration }
    }

    pub fn attempts(&self) -> (r: u32)
        ensures
            r == self.spec_attempts(),
    {
        self.attempts
    }

    /// Starts the next attempt at slot `slot` against a taker order with `remaining`
    /// unfilled, or ends the run: when no attempt is left or the order is no longer viable
    /// (`Expired`), or when the envelope is not configured.
    pub fn begin_attempt(&mut self, params: &JitIxParams, remaining: u64, min_order_size: u64, slot: u64) -> (r: FillStep)
        requires
            old(self).wf(),
        ensures
            final(self).wf(),
            final(self).spec_start_slot() == old(self).spec_start_slot(),
            final(self).spec_duration() == old(self).spec_duration(),
            !old(self).has_attempt_left(slot) ==> r == FillStep::Stop(FillEnd::Expired),
            old(self).has_attempt_left(slot) && !params.spec_is_configured() ==> r == FillStep::Stop(
                FillEnd::NotConfigured,
            ),
            old(self).has_attempt_left(slot) && params.spec_is_configured() && !viable(remaining, min_order_size)
                ==> r == FillStep::Stop(FillEnd::Expired),
            old(self).has_attempt_left(slot) && params.spec_is_configured() && viable(remaining, min_order_size)
                ==> r == FillStep::Submit,
            r == FillStep::Submit ==> final(self).spec_attempts() == old(self).spec_attempts() + 1,
            r != FillStep::Submit ==> final(self).spec_attempts() == old(self).spec_attempts(),
    {
        if self.attempts >= self.duration as u32
            || slot as u128 >= self.start_slot as u128 + self.duration as u128 {
            return FillStep::Stop(FillEnd::Expired);
        }
        if !params.is_configured() {
            return FillStep::Stop(FillEnd::NotConfigured);
        }
        if remaining == 0 || remaining < min_order_size {
            return FillStep::Stop(FillEnd::Expired);
        }
        self.attempts = self.attempts + 1;
        FillStep::Submit
    }

    /// The step after an attempt: a confirmed fill ends the run, a missing order ends it
    /// as expired, a passing failure leads to the next attempt, any other failure ends
    /// the run.
    pub fn on_outcome(&self, outcome: AttemptOutcome, order_sig: &str) -> (r: FillStep)
        ensures
            r == step_after(outcome),
    {
        match outcome {
            AttemptOutcome::Filled => FillStep::Stop(FillEnd::Filled),
            AttemptOutcome::OrderNotFound => FillStep::Stop(FillEnd::Expired),
            AttemptOutcome::Failed(msg) => match check_err(msg, order_sig) {
                None => FillStep::RetryAfterDelay,
                Some(()) => FillStep::Stop(FillEnd::Terminal),
            },
        }
    }
}

} // verus!
