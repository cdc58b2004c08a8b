//! A scripted model of the native push-notification collaborator.
//!
//! On builds with native support the bridge forwards each operation to a
//! platform SDK. That collaborator is outside the bridge; what the bridge's
//! dispatch and normalization logic can be held to is a substitute that
//! answers every forwarded operation from plain, scripted state: the tokens
//! it will issue, the topics subscribed so far, the OS permission state,
//! and the last recorded message. [`NativeModel`] is that substitute, and
//! [`native_step`] / [`native_reply`] say exactly how it moves and answers.

use vstd::prelude::*;

use crate::ops::{ChannelOutcome, ChannelValue, Message, Operation, OperationView, OutcomeView,
    ValueView};

verus! {

/// Mathematical state of the native collaborator.
#[verifier::ext_equal]
pub struct NativeView {
    /// Tokens staged for issue; the token issued next is the last element.
    pub pending: Seq<Seq<char>>,
    /// The currently issued registration token, if one is issued.
    pub current: Option<Seq<char>>,
    /// The topics the installation is subscribed to.
    pub topics: Set<Seq<char>>,
    /// Whether OS-level notifications are enabled.
    pub enabled: bool,
    /// The answer the OS gives to a permission request.
    pub grant: bool,
    /// The last recorded push message, if any arrived.
    pub last: Option<Seq<char>>,
}

/// The state of a collaborator that has issued nothing, heard of no topic,
/// holds no message, and has no permission granted.
pub open spec fn fresh_native() -> NativeView {
    NativeView {
        pending: Seq::empty(),
        current: None,
        topics: Set::empty(),
        enabled: false,
        grant: false,
        last: None,
    }
}

/// The token a `GetToken` call returns in state `v`: the current token if
/// one is issued, else the next staged token, else the empty token (an
/// empty token is a valid success, not an error).
pub open spec fn token_issued(v: NativeView) -> Seq<char> {
    match v.current {
        Some(t) => t,
        None => if v.pending.len() > 0 {
            v.pending.last()
        } else {
            Seq::empty()
        },
    }
}

/// How one forwarded operation moves the native collaborator's state.
pub open spec fn native_step(v: NativeView, op: OperationView) -> NativeView {
    match op {
        OperationView::GetToken => NativeView {
            current: Some(token_issued(v)),
            pending: if v.current is Some {
                v.pending
            } else if v.pending.len() > 0 {
                v.pending.drop_last()
            } else {
                v.pending
            },
            ..v
        },
        OperationView::SubscribeToTopic(t) => NativeView { topics: v.topics.insert(t), ..v },
        OperationView::UnsubscribeFromTopic(t) => NativeView { topics: v.topics.remove(t), ..v },
        OperationView::AreNotificationsEnabled => v,
        OperationView::RequestNotificationPermission => NativeView { enabled: v.grant, ..v },
        OperationView::DeleteToken => NativeView { current: None, ..v },
        OperationView::GetLastMessage => v,
    }
}

/// What the native collaborator answers to one forwarded operation in
/// state `v`. The model is a well-behaved collaborator: every answer is a
/// delivered value of the shape the operation calls for.
pub open spec fn native_reply(v: NativeView, op: OperationView) -> OutcomeView {
    match op {
        OperationView::GetToken => OutcomeView::Delivered(ValueView::Text(token_issued(v))),
        OperationView::SubscribeToTopic(_) => OutcomeView::Delivered(ValueView::Null),
        OperationView::UnsubscribeFromTopic(_) => OutcomeView::Delivered(ValueView::Null),
        OperationView::AreNotificationsEnabled => OutcomeView::Delivered(
            ValueView::Flag(v.enabled),
        ),
        OperationView::RequestNotificationPermission => OutcomeView::Delivered(
            ValueView::Flag(v.grant),
        ),
        OperationView::DeleteToken => OutcomeView::Delivered(ValueView::Null),
        OperationView::GetLastMessage => match v.last {
            Some(m) => OutcomeView::Delivered(ValueView::Document(m)),
            None => OutcomeView::Delivered(ValueView::Null),
        },
    }
}

/// The scripted substitute for the native push-notification SDK.
pub struct NativeModel {
    pending: Vec<String>,
    current: Option<String>,
    topics: Vec<String>,
    enabled: bool,
    grant: bool,
    last: Option<Message>,
}

impl View for NativeModel {
    type V = NativeView;

    closed spec fn view(&self) -> NativeView {
        NativeView {
            pending: self.pending@.map_values(|s: String| s@),
            current: match self.current {
                Some(t) => Some(t@),
                None => None,
            },
            topics: self.topics@.map_values(|s: String| s@).to_set(),
            enabled: self.enabled,
            grant: self.grant,
            last: match self.last {
                Some(m) => Some(m@),
                None => None,
            },
        }
    }
}

/// Appending an element to a sequence adds exactly that element to the set
/// of its values.
proof fn lemma_push_to_set<A>(s: Seq<A>, x: A)
    ensures
        s.push(x).to_set() == s.to_set().insert(x),
{
    assert forall|a: A| s.push(x).to_set().contains(a) implies s.to_set().insert(x).contains(
        a,
    ) by {
        let j = choose|j: int| 0 <= j < s.push(x).len() && s.push(x)[j] == a;
        if j < s.len() {
            assert(s[j] == a);
            assert(s.contains(a));
        }
    }
    assert forall|a: A| s.to_set().insert(x).contains(a) implies s.push(x).to_set().contains(
        a,
    ) by {
        if a == x {
            assert(s.push(x)[s.len() as int] == a);
            assert(s.push(x).contains(a));
        } else {
            let j = choose|j: int| 0 <= j < s.len() && s[j] == a;
            assert(s.push(x)[j] == a);
            assert(s.push(x).contains(a));
        }
    }
    assert(s.push(x).to_set() =~= s.to_set().insert(x));
}

/// Removing the one position holding a value removes exactly that value
/// from the set of a duplicate-free sequence's values.
proof fn lemma_remove_to_set<A>(s: Seq<A>, i: int)
    requires
        0 <= i < s.len(),
        forall|p: int, q: int| 0 <= p < q < s.len() ==> s[p] != s[q],
    ensures
        s.remove(i).to_set() == s.to_set().remove(s[i]),
{
    let t = s.remove(i);
    s.remove_ensures(i);
    assert forall|a: A| t.to_set().contains(a) implies s.to_set().remove(s[i]).contains(a) by {
        let j = choose|j: int| 0 <= j < t.len() && t[j] == a;
        if j < i {
            assert(s[j] == a);
            assert(s.contains(a));
        } else {
            assert(s[j + 1] == a);
            assert(s.contains(a));
        }
    }
    assert forall|a: A| s.to_set().remove(s[i]).contains(a) implies t.to_set().contains(a) by {
        let j = choose|j: int| 0 <= j < s.len() && s[j] == a;
        if j < i {
            assert(t[j] == a);
            assert(t.contains(a));
        } else {
            assert(j != i);
            assert(t[j - 1] == a);
            assert(t.contains(a));
        }
    }
    assert(t.to_set() =~= s.to_set().remove(s[i]));
}

impl NativeModel {
    /// The stored topics are pairwise distinct, so that the stored list
    /// carries exactly the set of subscribed topics.
    pub closed spec fn wf(&self) -> bool {
        forall|i: int, j: int|
            0 <= i < j < self.topics@.len() ==> self.topics@[i]@ != self.topics@[j]@
    }

    /// A collaborator in the fresh state: no token, no topic, no message,
    /// nothing granted.
    pub fn new() -> (r: NativeModel)
        ensures
            r.wf(),
            r@ == fresh_native(),
    {
        let r = NativeModel {
            pending: Vec::new(),
            current: None,
            topics: Vec::new(),
            enabled: false,
            grant: false,
            last: None,
        };
        proof {
            assert(r@.pending =~= Seq::<Seq<char>>::empty());
            assert(r@.topics =~= Set::<Seq<char>>::empty());
            assert(r@ =~= fresh_native());
        }
        r
    }

    /// Stage a token for issue. Tokens are issued most-recently-staged
    /// first; a staged token is issued once a `GetToken` finds no current
    /// token.
    pub fn stage_token(&mut self, token: String)
        requires
            old(self).wf(),
        ensures
            final(self).wf(),
            final(self)@ == (NativeView { pending: old(self)@.pending.push(token@), ..old(self)@ }),
    {
        self.pending.push(token);
        proof {
            assert(self@.pending =~= old(self)@.pending.push(self.pending@.last()@));
            assert(self@ =~= (NativeView {
                pending: old(self)@.pending.push(self.pending@.last()@),
                ..old(self)@
            }));
        }
    }

    /// Script the answer the OS will give to a permission request.
    pub fn set_permission_grant(&mut self, grant: bool)
        requires
            old(self).wf(),
        ensures
            final(self).wf(),
            final(self)@ == (NativeView { grant: grant, ..old(self)@ }),
    {
        self.grant = grant;
        proof {
            assert(self@ =~= (NativeView { grant: grant, ..old(self)@ }));
        }
    }

    /// Script the current OS-level notification permission state.
    pub fn set_notifications_enabled(&mut self, enabled: bool)
        requires
            old(self).wf(),
        ensures
            final(self).wf(),
            final(self)@ == (NativeView { enabled: enabled, ..old(self)@ }),
    {
        self.enabled = enabled;
        proof {
            assert(self@ =~= (NativeView { enabled: enabled, ..old(self)@ }));
        }
    }

    /// Record a push message as the native layer would when one arrives.
    pub fn record_message(&mut self, message: Message)
        requires
            old(self).wf(),
        ensures
            final(self).wf(),
            final(self)@ == (NativeView { last: Some(message@), ..old(self)@ }),
    {
        let ghost m = message@;
        self.last = Some(message);
        proof {
            assert(self@ =~= (NativeView { last: Some(m), ..old(self)@ }));
        }
    }

    /// Where `topic` stands in the stored list, if it stands there at all.
    fn index_of_topic(&self, topic: &String) -> (r: Option<usize>)
        ensures
            match r {
                Some(i) => i < self.topics@.len() && self.topics@[i as int]@ == topic@,
                None => forall|j: int| 0 <= j < self.topics@.len() ==> self.topics@[j]@ != topic@,
            },
    {
        let n = self.topics.len();
        let mut i: usize = 0;
        while i < n
            invariant
                n == self.topics@.len(),
                i <= n,
                forall|j: int| 0 <= j < i ==> self.topics@[j]@ != topic@,
            decreases n - i,
        {
            if self.topics[i] == *topic {
                return Some(i);
            }
            i += 1;
        }
        None
    }

    /// Whether the installation is subscribed to `topic`.
    pub fn is_subscribed(&self, topic: &String) -> (r: bool)
        ensures
            r == self@.topics.contains(topic@),
    {
        let found = self.index_of_topic(topic);
        proof {
            let mapped = self.topics@.map_values(|s: String| s@);
            match found {
                Some(i) => {
                    assert(mapped[i as int] == topic@);
                    assert(mapped.contains(topic@));
                },
                None => {
                    assert(forall|j: int| 0 <= j < mapped.len() ==> mapped[j] != topic@);
                    assert(!mapped.contains(topic@));
                },
            }
        }
        found.is_some()
    }

    /// How many topics the installation is subscribed to.
    pub fn topic_count(&self) -> (r: usize)
        requires
            self.wf(),
        ensures
            r == self@.topics.len(),
    {
        let r = self.topics.len();
        proof {
            let mapped = self.topics@.map_values(|s: String| s@);
            assert(mapped.no_duplicates()) by {
                assert(forall|i: int, j: int|
                    0 <= i < mapped.len() && 0 <= j < mapped.len() && i != j ==> mapped[i]
                        != mapped[j]);
            }
            mapped.unique_seq_to_set();
        }
        r
    }

    /// Answer one forwarded operation from the scripted state, exactly as
    /// [`native_step`] and [`native_reply`] describe.
    pub fn perform(&mut self, op: &Operation) -> (r: ChannelOutcome)
        requires
            old(self).wf(),
        ensures
            final(self).wf(),
            final(self)@ == native_step(old(self)@, op@),
            r@ == native_reply(old(self)@, op@),
    {
        match op {
            Operation::GetToken => {
                if self.current.is_some() {
                    let issued: String = match &self.current {
                        Some(t) => t.clone(),
                        None => String::new(),
                    };
                    proof {
                        assert(self@ =~= native_step(old(self)@, op@));
                    }
                    ChannelOutcome::Delivered(ChannelValue::Text(issued))
                } else {
                    match self.pending.pop() {
                        Some(t) => {
                            let issued = t.clone();
                            self.current = Some(t);
                            proof {
                                assert(self@.pending =~= old(self)@.pending.drop_last());
                                assert(self@ =~= native_step(old(self)@, op@));
                            }
                            ChannelOutcome::Delivered(ChannelValue::Text(issued))
                        },
                        None => {
                            self.current = Some(String::new());
                            proof {
                                assert(self@ =~= native_step(old(self)@, op@));
                            }
                            ChannelOutcome::Delivered(ChannelValue::Text(String::new()))
                        },
                    }
                }
            },
            Operation::SubscribeToTopic(t) => {
                if !self.is_subscribed(t) {
                    self.topics.push(t.clone());
                    proof {
                        let oldm = old(self).topics@.map_values(|s: String| s@);
                        let newm = self.topics@.map_values(|s: String| s@);
                        assert(newm =~= oldm.push(t@));
                        assert(!oldm.contains(t@));
                        assert(forall|j: int| 0 <= j < oldm.len() ==> oldm[j] != t@);
                        lemma_push_to_set(oldm, t@);
                        assert(self@ =~= native_step(old(self)@, op@));
                        assert forall|p: int, q: int|
                            0 <= p < q < self.topics@.len() implies self.topics@[p]@
                            != self.topics@[q]@ by {
                            assert(newm[p] == self.topics@[p]@);
                            assert(newm[q] == self.topics@[q]@);
                            if q < oldm.len() {
                                assert(oldm[p] == old(self).topics@[p]@);
                                assert(oldm[q] == old(self).topics@[q]@);
                            } else {
                                assert(newm[q] == t@);
                                assert(oldm[p] != t@);
                            }
                        }
                    }
                } else {
                    proof {
                        assert(old(self)@.topics.insert(t@) =~= old(self)@.topics);
                        assert(self@ =~= native_step(old(self)@, op@));
                    }
                }
                ChannelOutcome::Delivered(ChannelValue::Null)
            },
            Operation::UnsubscribeFromTopic(t) => {
                let ghost oldm = self.topics@.map_values(|s: String| s@);
                match self.index_of_topic(t) {
                    Some(i) => {
                        self.topics.remove(i);
                        proof {
                            let newm = self.topics@.map_values(|s: String| s@);
                            assert(newm =~= oldm.remove(i as int));
                            oldm.remove_ensures(i as int);
                            assert(forall|p: int, q: int|
                                0 <= p < q < oldm.len() ==> oldm[p] != oldm[q]);
                            assert(oldm[i as int] == t@);
                            lemma_remove_to_set(oldm, i as int);
                            assert(self@ =~= native_step(old(self)@, op@));
                            assert forall|p: int, q: int|
                                0 <= p < q < self.topics@.len() implies self.topics@[p]@
                                != self.topics@[q]@ by {
                                let pp: int = if p < i as int {
                                    p
                                } else {
                                    p + 1
                                };
                                let qq: int = if q < i as int {
                                    q
                                } else {
                                    q + 1
                                };
                                assert(newm[p] == oldm[pp]);
                                assert(newm[q] == oldm[qq]);
                                assert(newm[p] == self.topics@[p]@);
                                assert(newm[q] == self.topics@[q]@);
                            }
                        }
                    },
                    None => {
                        proof {
                            assert(forall|j: int| 0 <= j < oldm.len() ==> oldm[j] != t@);
                            assert(!oldm.contains(t@));
                            assert(old(self)@.topics.remove(t@) =~= old(self)@.topics);
                            assert(self@ =~= native_step(old(self)@, op@));
                        }
                    },
                }
                ChannelOutcome::Delivered(ChannelValue::Null)
            },
            Operation::AreNotificationsEnabled => {
                ChannelOutcome::Delivered(ChannelValue::Flag(self.enabled))
            },
            Operation::RequestNotificationPermission => {
                self.enabled = self.grant;
                proof {
                    assert(self@ =~= native_step(old(self)@, op@));
                }
                ChannelOutcome::Delivered(ChannelValue::Flag(self.grant))
            },
            Operation::DeleteToken => {
                self.current = None;
                proof {
                    assert(self@ =~= native_step(old(self)@, op@));
                }
                ChannelOutcome::Delivered(ChannelValue::Null)
            },
            Operation::GetLastMessage => {
                match &self.last {
                    Some(m) => ChannelOutcome::Delivered(ChannelValue::Document(m.clone())),
                    None => ChannelOutcome::Delivered(ChannelValue::Null),
                }
            },
        }
    }
}

} // verus!
