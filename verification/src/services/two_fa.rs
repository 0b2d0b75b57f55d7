//! Two-factor challenges: the login id, the one-time code, and the store
//! that keeps one pair per email between login and verification.

pub mod code;
pub mod login_id;

pub use code::{
    code_number,
    is_code_text,
    lemma_code_text_number,
    lemma_number_code_text,
    six_digits,
    TwoFaCode,
    MAX_CODE,
    MIN_CODE,
};
pub use login_id::{
    hyphenated_text,
    is_login_id_text,
    is_version_4,
    lemma_login_id_is_no_code,
    lemma_login_id_parse_round_trip,
    uuid_value,
    LoginId,
};

use crate::assoc::{
    as_map,
    distinct_keys,
    lemma_absent,
    lemma_entry,
    lemma_push,
    lemma_remove,
    lemma_update,
    place_of,
};
use crate::domain::creds::Email;
use vstd::prelude::*;

verus! {

/// The time a challenge stays good, in seconds: ten minutes.
pub const CHALLENGE_TTL_SECONDS: u64 = 600;

/// Why a call on the challenge store failed.
#[derive(Clone, Copy, Debug, PartialEq, Eq, Structural)]
pub enum TwoFaCodeError {
    /// No challenge is stored for the email.
    LoginAttemptIdNotFound,
    UnexpectedError,
}

/// The answer that a challenge store owes to the removal of a challenge.
pub open spec fn remove_code_answer(
    codes: Map<Seq<char>, (Seq<char>, Seq<char>)>,
    email: Seq<char>,
) -> Result<(), TwoFaCodeError> {
    if codes.contains_key(email) {
        Ok(())
    } else {
        Err(TwoFaCodeError::LoginAttemptIdNotFound)
    }
}

/// The store of pending challenges: for an email, the login id and the
/// code that were issued at its last login.
///
/// Its model is a map from the text of the email to the texts of the
/// pair, so there is at most one challenge per email. What a method
/// promises, it promises of a store that is `faithful` to that model. A
/// backend outside verified code implements the methods alone and leaves
/// `faithful` as it is, `false`: it may fail for reasons of its own, or
/// let challenges expire, and nothing is claimed of it.
pub trait TwoFaCodes {
    /// The pending challenges, each under the text of its email.
    open spec fn codes(&self) -> Map<Seq<char>, (Seq<char>, Seq<char>)> {
        Map::empty()
    }

    /// The store answers every call as its model decides, and changes the
    /// model only as the call says.
    open spec fn faithful(&self) -> bool {
        false
    }

    /// Stores a challenge for the email. One that was stored for it before
    /// is replaced.
    fn add_code(&mut self, email: Email, login_id: LoginId, code: TwoFaCode) -> (added: Result<
        (),
        TwoFaCodeError,
    >)
        ensures
            old(self).faithful() ==> {
                &&& final(self).faithful()
                &&& added is Ok
                &&& final(self).codes() == old(self).codes().insert(email@, (login_id@, code@))
            },
    ;

    /// Deletes the challenge of the email.
    fn remove_code(&mut self, email: &Email) -> (removed: Result<(), TwoFaCodeError>)
        ensures
            old(self).faithful() ==> {
                &&& final(self).faithful()
                &&& removed == remove_code_answer(old(self).codes(), email@)
                &&& final(self).codes() == old(self).codes().remove(email@)
            },
    ;

    /// The challenge of the email. It stays in the store: a caller compares
    /// first and deletes afterwards.
    fn get_code(&self, email: &Email) -> (found: Result<(LoginId, TwoFaCode), TwoFaCodeError>)
        ensures
            self.faithful() ==> match found {
                Ok((login_id, code)) => {
                    &&& self.codes().contains_key(email@)
                    &&& self.codes()[email@] == (login_id@, code@)
                },
                Err(error) => {
                    &&& error == TwoFaCodeError::LoginAttemptIdNotFound
                    &&& !self.codes().contains_key(email@)
                },
            },
    ;
}

/// A challenge as the in-memory store holds it, with the time of the
/// store's clock at which it was stored.
struct Challenge {
    email: Email,
    login_id: LoginId,
    code: TwoFaCode,
    issued_at: u64,
}

/// The challenge store held in memory.
///
/// The store has a clock, in seconds, that its caller sets with `expire`.
/// A challenge is stored with the clock's time and lives for ten minutes
/// from then on: `expire` drops the challenges whose time is up. A store
/// whose clock is never set keeps its challenges until they are removed.
pub struct TwoFaCodeStore {
    challenges: Vec<Challenge>,
    clock: u64,
}

/// The challenges of a vector as pairs of key and value, the value being
/// login id, code and time of issue.
spec fn entries_of(challenges: Seq<Challenge>) -> Seq<
    (Seq<char>, (Seq<char>, Seq<char>, nat)),
> {
    challenges.map_values(
        |c: Challenge| (c.email@, (c.login_id@, c.code@, c.issued_at as nat)),
    )
}

impl View for TwoFaCodeStore {
    type V = Map<Seq<char>, (Seq<char>, Seq<char>)>;

    closed spec fn view(&self) -> Map<Seq<char>, (Seq<char>, Seq<char>)> {
        Map::new(
            |email: Seq<char>| self.held().contains_key(email),
            |email: Seq<char>| (self.held()[email].0, self.held()[email].1),
        )
    }
}

impl TwoFaCodeStore {
    spec fn entries(&self) -> Seq<(Seq<char>, (Seq<char>, Seq<char>, nat))> {
        entries_of(self.challenges@)
    }

    /// Every stored challenge with the time of its issue.
    spec fn held(&self) -> Map<Seq<char>, (Seq<char>, Seq<char>, nat)> {
        as_map(self.entries())
    }

    #[verifier::type_invariant]
    spec fn valid(&self) -> bool {
        &&& distinct_keys(self.entries())
        &&& forall|i: int|
            0 <= i < self.challenges.len() ==> (#[trigger] self.challenges[i]).issued_at
                <= self.clock < self.challenges[i].issued_at + CHALLENGE_TTL_SECONDS
    }

    /// The time of the store's clock, in seconds.
    pub closed spec fn clock(&self) -> nat {
        self.clock as nat
    }

    /// For every stored challenge, the time at which it ends: ten minutes
    /// after the time of the clock at which it was stored.
    pub closed spec fn deadlines(&self) -> Map<Seq<char>, nat> {
        Map::new(
            |email: Seq<char>| self.held().contains_key(email),
            |email: Seq<char>| (self.held()[email].2 + CHALLENGE_TTL_SECONDS) as nat,
        )
    }

    /// The emails whose challenge is still good at a time.
    pub open spec fn live_at(&self, now: nat) -> Set<Seq<char>> {
        Set::new(
            |email: Seq<char>|
                self.deadlines().contains_key(email) && self.deadlines()[email] > now,
        )
    }

    /// A store without challenges, its clock at zero.
    pub fn new() -> (store: TwoFaCodeStore)
        ensures
            store@ == Map::<Seq<char>, (Seq<char>, Seq<char>)>::empty(),
            store.deadlines() == Map::<Seq<char>, nat>::empty(),
            store.clock() == 0,
    {
        let store = TwoFaCodeStore { challenges: Vec::new(), clock: 0 };
        assert(store.entries() =~= Seq::empty());
        assert(store.held() =~= Map::empty());
        assert(store@ =~= Map::empty());
        assert(store.deadlines() =~= Map::empty());
        store
    }

    /// Sets the clock to `now`, unless it is later already, and drops the
    /// challenges whose deadline the clock has reached. The others stay as
    /// they are.
    pub fn expire(&mut self, now: u64)
        ensures
            final(self).clock() == if now > old(self).clock() {
                now as nat
            } else {
                old(self).clock()
            },
            final(self)@ == old(self)@.restrict(old(self).live_at(now as nat)),
            final(self).deadlines() == old(self).deadlines().restrict(
                old(self).live_at(now as nat),
            ),
            final(self).live_at(final(self).clock()) == final(self)@.dom(),
    {
        proof {
            use_type_invariant(&*self);
        }
        let ghost before = self.held();
        let ghost before_view = self@;
        let ghost before_deadlines = self.deadlines();
        let ghost alive = self.live_at(now as nat);
        let start = self.clock;
        let time = if now > start {
            now
        } else {
            start
        };
        let mut challenges = Vec::new();
        core::mem::swap(&mut self.challenges, &mut challenges);
        let mut i: usize = 0;
        while i < challenges.len()
            invariant
                i <= challenges.len(),
                start <= time,
                time == now || now < start,
                distinct_keys(entries_of(challenges@)),
                forall|j: int|
                    0 <= j < challenges.len() ==> (#[trigger] challenges[j]).issued_at <= start,
                forall|j: int|
                    0 <= j < i ==> time < (#[trigger] challenges[j]).issued_at
                        + CHALLENGE_TTL_SECONDS,
                forall|email: Seq<char>| #[trigger]
                    as_map(entries_of(challenges@)).contains_key(email) ==> before.contains_key(
                        email,
                    ) && before[email] == as_map(entries_of(challenges@))[email],
                forall|email: Seq<char>| #[trigger]
                    before.contains_key(email) && time < before[email].2
                        + CHALLENGE_TTL_SECONDS ==> as_map(entries_of(challenges@)).contains_key(
                        email,
                    ),
            decreases challenges.len() - i,
        {
            if time - challenges[i].issued_at >= CHALLENGE_TTL_SECONDS {
                let ghost current = entries_of(challenges@);
                proof {
                    lemma_entry(current, i as int);
                    lemma_remove(current, i as int);
                }
                challenges.remove(i);
                proof {
                    assert(entries_of(challenges@) =~= current.remove(i as int));
                }
            } else {
                i += 1;
            }
        }
        proof {
            let kept = entries_of(challenges@);
            assert forall|email: Seq<char>| #[trigger]
                as_map(kept).contains_key(email) implies time < as_map(kept)[email].2
                + CHALLENGE_TTL_SECONDS by {
                let j = place_of(kept, email);
                lemma_entry(kept, j);
                assert(time < challenges[j].issued_at + CHALLENGE_TTL_SECONDS);
            }
        }
        self.challenges = challenges;
        self.clock = time;
        proof {
            assert(self@ =~= before_view.restrict(alive));
            assert(self.deadlines() =~= before_deadlines.restrict(alive));
            assert(self.live_at(self.clock()) =~= self@.dom());
        }
    }

    /// Where the challenge of this email stands in the vector.
    fn position(&self, email: &Email) -> (at: Option<usize>)
        ensures
            match at {
                Some(i) => {
                    &&& i < self.challenges.len()
                    &&& self.entries()[i as int].0 == email@
                    &&& self.held().contains_key(email@)
                    &&& self.held()[email@] == self.entries()[i as int].1
                },
                None => !self.held().contains_key(email@),
            },
    {
        proof {
            use_type_invariant(self);
        }
        let mut i: usize = 0;
        while i < self.challenges.len()
            invariant
                i <= self.challenges.len(),
                distinct_keys(self.entries()),
                forall|j: int| 0 <= j < i ==> (#[trigger] self.entries()[j]).0 != email@,
            decreases self.challenges.len() - i,
        {
            if self.challenges[i].email == *email {
                proof {
                    lemma_entry(self.entries(), i as int);
                }
                return Some(i);
            }
            i += 1;
        }
        proof {
            lemma_absent(self.entries(), email@);
        }
        None
    }
}

impl Default for TwoFaCodeStore {
    fn default() -> (store: TwoFaCodeStore)
        ensures
            store@ == Map::<Seq<char>, (Seq<char>, Seq<char>)>::empty(),
            store.deadlines() == Map::<Seq<char>, nat>::empty(),
            store.clock() == 0,
    {
        TwoFaCodeStore::new()
    }
}

impl TwoFaCodes for TwoFaCodeStore {
    open spec fn codes(&self) -> Map<Seq<char>, (Seq<char>, Seq<char>)> {
        self@
    }

    open spec fn faithful(&self) -> bool {
        true
    }

    /// The challenge is stored with the time of the clock: its deadline is
    /// ten minutes from then.
    fn add_code(&mut self, email: Email, login_id: LoginId, code: TwoFaCode) -> (added: Result<
        (),
        TwoFaCodeError,
    >)
        ensures
            final(self).clock() == old(self).clock(),
            final(self).deadlines() == old(self).deadlines().insert(
                email@,
                (old(self).clock() + CHALLENGE_TTL_SECONDS) as nat,
            ),
    {
        let at = self.position(&email);
        let ghost before = self.entries();
        let ghost before_view = self@;
        let ghost before_deadlines = self.deadlines();
        let ghost value = (login_id@, code@, self.clock as nat);
        proof {
            use_type_invariant(&*self);
        }
        let challenge = Challenge { email, login_id, code, issued_at: self.clock };
        let mut challenges = Vec::new();
        core::mem::swap(&mut self.challenges, &mut challenges);
        match at {
            Some(i) => {
                challenges.set(i, challenge);
                proof {
                    lemma_update(before, i as int, value);
                    assert(entries_of(challenges@) =~= before.update(
                        i as int,
                        (before[i as int].0, value),
                    ));
                }
            },
            None => {
                challenges.push(challenge);
                proof {
                    lemma_push(before, challenge.email@, value);
                    assert(entries_of(challenges@) =~= before.push((challenge.email@, value)));
                }
            },
        }
        self.challenges = challenges;
        proof {
            assert(self@ =~= before_view.insert(challenge.email@, (value.0, value.1)));
            assert(self.deadlines() =~= before_deadlines.insert(
                challenge.email@,
                (value.2 + CHALLENGE_TTL_SECONDS) as nat,
            ));
        }
        Ok(())
    }

    fn remove_code(&mut self, email: &Email) -> (removed: Result<(), TwoFaCodeError>)
        ensures
            final(self).clock() == old(self).clock(),
            final(self).deadlines() == old(self).deadlines().remove(email@),
    {
        let ghost before_view = self@;
        let ghost before_deadlines = self.deadlines();
        match self.position(email) {
            Some(i) => {
                let ghost before = self.entries();
                proof {
                    use_type_invariant(&*self);
                    lemma_remove(before, i as int);
                }
                let mut challenges = Vec::new();
                core::mem::swap(&mut self.challenges, &mut challenges);
                challenges.remove(i);
                proof {
                    assert(entries_of(challenges@) =~= before.remove(i as int));
                }
                self.challenges = challenges;
                proof {
                    assert(self@ =~= before_view.remove(email@));
                    assert(self.deadlines() =~= before_deadlines.remove(email@));
                }
                Ok(())
            },
            None => {
                proof {
                    assert(before_view.remove(email@) =~= before_view);
                    assert(before_deadlines.remove(email@) =~= before_deadlines);
                }
                Err(TwoFaCodeError::LoginAttemptIdNotFound)
            },
        }
    }

    fn get_code(&self, email: &Email) -> (found: Result<(LoginId, TwoFaCode), TwoFaCodeError>) {
        match self.position(email) {
            Some(i) => Ok((self.challenges[i].login_id.clone(), self.challenges[i].code.clone())),
            None => Err(TwoFaCodeError::LoginAttemptIdNotFound),
        }
    }
}

} // verus!
