//! The exit monitor: subscribers register for a topic and are told of the
//! exits of processes (by pid) and of container execs (by container and exec
//! id) that fall under it.

use crate::error::Error;
use std::collections::HashMap;
use tokio::sync::mpsc::Receiver;
use tokio::sync::mpsc::Sender;
use vstd::prelude::*;

verus! {

broadcast use vstd::std_specs::hash::group_hash_axioms;

#[verifier::external_type_specification]
#[verifier::external_body]
#[verifier::reject_recursive_types(T)]
pub struct ExSender<T>(Sender<T>);

#[verifier::external_type_specification]
#[verifier::external_body]
#[verifier::reject_recursive_types(T)]
pub struct ExReceiver<T>(Receiver<T>);

/// Creates a bounded channel with `tokio::sync::mpsc::channel`, which panics
/// on a capacity of zero or above `usize::MAX >> 3`; nothing is stated of the
/// two ends it returns.
#[verifier::external_body]
fn bounded_channel<T>(capacity: usize) -> (Sender<T>, Receiver<T>)
    requires
        0 < capacity <= usize::MAX / 8,
{
    tokio::sync::mpsc::channel::<T>(capacity)
}

/// How many exit events a subscription buffers before a sender waits.
pub const SUBSCRIPTION_CAPACITY: usize = 128;

/// What a subscriber listens to.
#[derive(Clone, Copy, Debug, PartialEq, Eq, Hash, Structural)]
pub enum Topic {
    /// Exits of processes, named by pid.
    Pid,
    /// Exits of execs in containers, named by container and exec id.
    Exec,
    /// Every exit.
    All,
}

/// What exited.
#[derive(Clone, Debug)]
pub enum Subject {
    /// The process with this pid.
    Pid(i32),
    /// The exec with this id in the container with this id.
    Exec(String, String),
}

/// The view of a `Subject`.
pub enum SubjectView {
    Pid(i32),
    Exec(Seq<char>, Seq<char>),
}

impl View for Subject {
    type V = SubjectView;

    open spec fn view(&self) -> SubjectView {
        match self {
            Subject::Pid(p) => SubjectView::Pid(*p),
            Subject::Exec(c, e) => SubjectView::Exec(c@, e@),
        }
    }
}

/// A report that something exited with a code.
#[derive(Clone, Debug)]
pub struct ExitEvent {
    pub subject: Subject,
    pub exit_code: i32,
}

impl View for ExitEvent {
    type V = (SubjectView, i32);

    open spec fn view(&self) -> (SubjectView, i32) {
        (self.subject@, self.exit_code)
    }
}

/// One exit event to hand to one subscriber.
pub struct Delivery {
    pub subscriber: i64,
    pub event: ExitEvent,
}

impl View for Delivery {
    type V = (i64, SubjectView, i32);

    open spec fn view(&self) -> (i64, SubjectView, i32) {
        (self.subscriber, self.event.subject@, self.event.exit_code)
    }
}

/// A registered listener: its topic and the sending end of its channel.
pub(crate) struct Subscriber {
    pub(crate) topic: Topic,
    pub(crate) tx: Sender<ExitEvent>,
}

/// What a subscriber holds: its id and the receiving end of its channel.
pub struct Subscription {
    pub id: i64,
    pub rx: Receiver<ExitEvent>,
}

/// The abstract state of a monitor: the next id to hand out, the topic of
/// each registered subscriber, and for each topic its subscribers in the
/// order they registered.
pub struct MonitorView {
    pub next_id: int,
    pub topics: Map<i64, Topic>,
    pub lists: Map<Topic, Seq<i64>>,
}

impl MonitorView {
    /// The invariant of every monitor.
    pub open spec fn wf(self) -> bool {
        &&& 0 <= self.next_id <= i64::MAX
        &&& self.topics.dom().finite()
        &&& self.lists.contains_key(Topic::Pid)
        &&& self.lists.contains_key(Topic::Exec)
        &&& self.lists.contains_key(Topic::All)
        &&& forall|id: i64| #[trigger] self.topics.contains_key(id) ==> 0 <= id < self.next_id
        &&& forall|t: Topic| #[trigger] self.lists[t].no_duplicates()
        &&& forall|t: Topic, i: int|
            0 <= i < self.lists[t].len() ==> #[trigger] self.topics.contains_key(self.lists[t][i])
                && self.topics[self.lists[t][i]] == t
        &&& forall|id: i64| #[trigger]
            self.topics.contains_key(id) ==> self.lists[self.topics[id]].contains(id)
    }

    /// The state after a subscription to `t`: the next id is registered for
    /// `t` and appended to the subscribers of `t`.
    pub open spec fn subscribed(self, t: Topic) -> MonitorView {
        let id = self.next_id as i64;
        MonitorView {
            next_id: self.next_id + 1,
            topics: self.topics.insert(id, t),
            lists: self.lists.insert(t, self.lists[t].push(id)),
        }
    }

    /// The state after `id` unsubscribes: it leaves the registry and the
    /// subscribers of its topic; an unknown id changes nothing.
    pub open spec fn unsubscribed(self, id: i64) -> MonitorView {
        if self.topics.contains_key(id) {
            let t = self.topics[id];
            MonitorView {
                next_id: self.next_id,
                topics: self.topics.remove(id),
                lists: self.lists.insert(t, self.lists[t].remove_value(id)),
            }
        } else {
            self
        }
    }

    /// The subscribers told of an exit under topic `t`: those of `t`, then
    /// those of `Topic::All`, each in registration order.
    pub open spec fn audience(self, t: Topic) -> Seq<i64> {
        self.lists[t] + self.lists[Topic::All]
    }
}

/// The deliveries of one event to each subscriber in `ids`, in order.
pub open spec fn deliveries_to(ids: Seq<i64>, subject: SubjectView, exit_code: i32) -> Seq<
    (i64, SubjectView, i32),
> {
    ids.map_values(|id: i64| (id, subject, exit_code))
}

/// The registry of exit subscribers.
pub struct Monitor {
    seq_id: i64,
    subscribers: HashMap<i64, Subscriber>,
    pid_subs: Vec<i64>,
    exec_subs: Vec<i64>,
    all_subs: Vec<i64>,
}

impl View for Monitor {
    type V = MonitorView;

    closed spec fn view(&self) -> MonitorView {
        MonitorView {
            next_id: self.seq_id as int,
            topics: self.subscribers@.map_values(|s: Subscriber| s.topic),
            lists: map![
                Topic::Pid => self.pid_subs@,
                Topic::Exec => self.exec_subs@,
                Topic::All => self.all_subs@,
            ],
        }
    }
}

/// A copy of a subject.
fn copy_subject(s: &Subject) -> (r: Subject)
    ensures
        r@ == s@,
{
    match s {
        Subject::Pid(p) => Subject::Pid(*p),
        Subject::Exec(c, e) => Subject::Exec(c.clone(), e.clone()),
    }
}

/// Appends to `out` one delivery of the event to each subscriber in `ids`.
fn deliver_to_all(ids: &Vec<i64>, subject: &Subject, exit_code: i32, out: &mut Vec<Delivery>)
    ensures
        final(out)@.map_values(|d: Delivery| d@) == old(out)@.map_values(|d: Delivery| d@)
            + deliveries_to(ids@, subject@, exit_code),
{
    let ghost start = out@.map_values(|d: Delivery| d@);
    let mut i: usize = 0;
    while i < ids.len()
        invariant
            i <= ids@.len(),
            out@.map_values(|d: Delivery| d@) == start + deliveries_to(
                ids@.take(i as int),
                subject@,
                exit_code,
            ),
        decreases ids@.len() - i,
    {
        let d = Delivery {
            subscriber: ids[i],
            event: ExitEvent { subject: copy_subject(subject), exit_code },
        };
        let ghost before = out@;
        out.push(d);
        assert(ids@.take(i + 1) =~= ids@.take(i as int).push(ids@[i as int]));
        assert(out@.map_values(|d: Delivery| d@) =~= before.map_values(|d: Delivery| d@).push(d@));
        assert(deliveries_to(ids@.take(i + 1), subject@, exit_code) =~= deliveries_to(
            ids@.take(i as int),
            subject@,
            exit_code,
        ).push(d@));
        i = i + 1;
    }
    assert(ids@.take(ids@.len() as int) =~= ids@);
}

/// Removes the first occurrence of `id` from `v`, if there is one.
fn remove_first(v: &mut Vec<i64>, id: i64)
    ensures
        final(v)@ == old(v)@.remove_value(id),
{
    proof {
        v@.index_of_first_ensures(id);
    }
    let mut i: usize = 0;
    while i < v.len()
        invariant
            i <= v@.len(),
            v@ == old(v)@,
            forall|j: int| 0 <= j < i ==> v@[j] != id,
        decreases v@.len() - i,
    {
        if v[i] == id {
            proof {
                v@.index_of_first_ensures(id);
                match v@.index_of_first(id) {
                    Some(k) => {
                        if k < i {
                            assert(v@[k] != id);
                        } else if k > i {
                            assert(v@[i as int] != id);
                        }
                        assert(k == i);
                    },
                    None => {
                        assert(v@[i as int] == id);
                    },
                }
            }
            v.remove(i);
            return;
        }
        i = i + 1;
    }
    proof {
        match v@.index_of_first(id) {
            Some(k) => {
                assert(v@[k] == id);
            },
            None => {},
        }
    }
}

impl Monitor {
    /// An empty monitor whose first subscriber gets id 0.
    pub fn new() -> (m: Monitor)
        ensures
            m@.wf(),
            m@.next_id == 0,
            m@.topics == Map::<i64, Topic>::empty(),
            m@.lists[Topic::Pid] == Seq::<i64>::empty(),
            m@.lists[Topic::Exec] == Seq::<i64>::empty(),
            m@.lists[Topic::All] == Seq::<i64>::empty(),
    {
        let m = Monitor {
            seq_id: 0,
            subscribers: HashMap::new(),
            pid_subs: Vec::new(),
            exec_subs: Vec::new(),
            all_subs: Vec::new(),
        };
        assert(m@.topics =~= Map::<i64, Topic>::empty());
        m
    }

    /// The id the next subscriber will get.
    pub fn next_id(&self) -> (r: i64)
        ensures
            r == self@.next_id,
    {
        self.seq_id
    }

    /// The sending end of the channel of registered subscriber `id`.
    pub closed spec fn sender_of(&self, id: i64) -> Sender<ExitEvent> {
        self.subscribers@[id].tx
    }

    /// The sending end of subscriber `id`'s channel, if it is registered.
    pub fn sender(&self, id: i64) -> (r: Option<&Sender<ExitEvent>>)
        ensures
            r.is_some() == self@.topics.contains_key(id),
            r matches Some(tx) ==> *tx == self.sender_of(id),
    {
        match self.subscribers.get(&id) {
            Some(s) => Some(&s.tx),
            None => None,
        }
    }

    /// Registers a subscriber for `topic`: it gets the next id and a fresh
    /// channel, and is appended to the subscribers of `topic`.
    pub fn subscribe(&mut self, topic: Topic) -> (r: Result<Subscription, Error>)
        requires
            old(self)@.wf(),
            old(self)@.next_id < i64::MAX,
        ensures
            r is Ok,
            r->Ok_0.id == old(self)@.next_id,
            !old(self)@.topics.contains_key(r->Ok_0.id),
            final(self)@ == old(self)@.subscribed(topic),
            final(self)@.wf(),
            final(self)@.next_id == old(self)@.next_id + 1,
            final(self)@.topics == old(self)@.topics.insert(r->Ok_0.id, topic),
            final(self)@.lists[topic] == old(self)@.lists[topic].push(r->Ok_0.id),
            forall|u: Topic| u != topic ==> #[trigger] final(self)@.lists[u] == old(self)@.lists[u],
            forall|k: i64| #[trigger]
                old(self)@.topics.contains_key(k) ==> final(self).sender_of(k) == old(self).sender_of(
                    k,
                ),
    {
        let ghost old_view = self@;
        let (tx, rx) = bounded_channel::<ExitEvent>(SUBSCRIPTION_CAPACITY);
        let id = self.seq_id;
        self.seq_id = self.seq_id + 1;
        let subscriber = Subscriber { tx, topic };
        self.subscribers.insert(id, subscriber);
        match topic {
            Topic::Pid => self.pid_subs.push(id),
            Topic::Exec => self.exec_subs.push(id),
            Topic::All => self.all_subs.push(id),
        }
        proof {
            assert(self@.topics =~= old_view.topics.insert(id, topic));
            assert(self@.lists =~= old_view.lists.insert(topic, old_view.lists[topic].push(id)));
            lemma_subscribed_wf(old_view, topic);
        }
        Ok(Subscription { id, rx })
    }

    /// Removes subscriber `id` from the registry and from the subscribers of
    /// its topic; an unknown id changes nothing. It always succeeds.
    pub fn unsubscribe(&mut self, id: i64) -> (r: Result<(), Error>)
        requires
            old(self)@.wf(),
        ensures
            r is Ok,
            final(self)@ == old(self)@.unsubscribed(id),
            final(self)@.wf(),
            final(self)@.next_id == old(self)@.next_id,
            final(self)@.topics == old(self)@.topics.remove(id),
            forall|u: Topic, x: i64| #[trigger]
                final(self)@.lists[u].contains(x) <==> (old(self)@.lists[u].contains(x) && x != id),
            forall|k: i64| #[trigger]
                final(self)@.topics.contains_key(k) ==> final(self).sender_of(k) == old(self).sender_of(
                    k,
                ),
    {
        let ghost old_view = self@;
        let sub = self.subscribers.remove(&id);
        match sub {
            Some(s) => {
                assert(old_view.topics[id] == s.topic);
                match s.topic {
                    Topic::Pid => remove_first(&mut self.pid_subs, id),
                    Topic::Exec => remove_first(&mut self.exec_subs, id),
                    Topic::All => remove_first(&mut self.all_subs, id),
                }
                proof {
                    assert(self@.topics =~= old_view.topics.remove(id));
                    assert(self@.lists =~= old_view.lists.insert(
                        s.topic,
                        old_view.lists[s.topic].remove_value(id),
                    ));
                }
            },
            None => {
                proof {
                    assert(self@.topics =~= old_view.topics);
                    assert(self@.lists =~= old_view.lists);
                }
            },
        }
        proof {
            lemma_unsubscribed_wf(old_view, id);
            assert forall|u: Topic, x: i64| #[trigger]
                self@.lists[u].contains(x) <==> (old_view.lists[u].contains(x) && x != id) by {
                law_unsubscribe_membership(old_view, id, u, x);
            }
        }
        Ok(())
    }

    /// The deliveries that tell every subscriber of `topic`, in registration
    /// order, of `subject`'s exit: one each, and to no one else.
    fn notify_topic(&self, topic: Topic, subject: &Subject, exit_code: i32) -> (r: Vec<Delivery>)
        requires
            self@.wf(),
        ensures
            r@.map_values(|d: Delivery| d@) == deliveries_to(self@.lists[topic], subject@, exit_code),
    {
        let mut out: Vec<Delivery> = Vec::new();
        assert(out@.map_values(|d: Delivery| d@) =~= Seq::empty());
        match topic {
            Topic::Pid => deliver_to_all(&self.pid_subs, subject, exit_code, &mut out),
            Topic::Exec => deliver_to_all(&self.exec_subs, subject, exit_code, &mut out),
            Topic::All => deliver_to_all(&self.all_subs, subject, exit_code, &mut out),
        }
        out
    }

    /// The deliveries for `topic` followed by those for `Topic::All`.
    fn notify_topic_and_all(&self, topic: Topic, subject: &Subject, exit_code: i32) -> (r: Vec<
        Delivery,
    >)
        requires
            self@.wf(),
        ensures
            r@.map_values(|d: Delivery| d@) == deliveries_to(
                self@.audience(topic),
                subject@,
                exit_code,
            ),
    {
        let mut out = self.notify_topic(topic, subject, exit_code);
        let mut rest = self.notify_topic(Topic::All, subject, exit_code);
        let ghost a = out@;
        let ghost b = rest@;
        out.append(&mut rest);
        proof {
            let l1 = self@.lists[topic];
            let l2 = self@.lists[Topic::All];
            assert(out@.map_values(|d: Delivery| d@) =~= a.map_values(|d: Delivery| d@)
                + b.map_values(|d: Delivery| d@));
            assert(deliveries_to(l1 + l2, subject@, exit_code) =~= deliveries_to(
                l1,
                subject@,
                exit_code,
            ) + deliveries_to(l2, subject@, exit_code));
        }
        out
    }

    /// The deliveries that report that process `pid` exited with
    /// `exit_code`: one to each subscriber of `Topic::Pid`, then one to each
    /// subscriber of `Topic::All`.
    pub fn notify_by_pid(&self, pid: i32, exit_code: i32) -> (r: Vec<Delivery>)
        requires
            self@.wf(),
        ensures
            r@.map_values(|d: Delivery| d@) == deliveries_to(
                self@.audience(Topic::Pid),
                SubjectView::Pid(pid),
                exit_code,
            ),
            r@.len() == self@.lists[Topic::Pid].len() + self@.lists[Topic::All].len(),
            forall|i: int|
                0 <= i < r@.len() ==> #[trigger] r@[i].subscriber == (self@.lists[Topic::Pid]
                    + self@.lists[Topic::All])[i] && r@[i].event.subject@ == SubjectView::Pid(pid)
                    && r@[i].event.exit_code == exit_code,
    {
        let subject = Subject::Pid(pid);
        let r = self.notify_topic_and_all(Topic::Pid, &subject, exit_code);
        proof {
            lemma_deliveries_index(r@, self@.audience(Topic::Pid), subject@, exit_code);
        }
        r
    }

    /// The deliveries that report that exec `exec_id` of container `cid`
    /// exited with `exit_code`: one to each subscriber of `Topic::Exec`,
    /// then one to each subscriber of `Topic::All`.
    pub fn notify_by_exec(&self, cid: &str, exec_id: &str, exit_code: i32) -> (r: Vec<Delivery>)
        requires
            self@.wf(),
        ensures
            r@.map_values(|d: Delivery| d@) == deliveries_to(
                self@.audience(Topic::Exec),
                SubjectView::Exec(cid@, exec_id@),
                exit_code,
            ),
            r@.len() == self@.lists[Topic::Exec].len() + self@.lists[Topic::All].len(),
            forall|i: int|
                0 <= i < r@.len() ==> #[trigger] r@[i].subscriber == (self@.lists[Topic::Exec]
                    + self@.lists[Topic::All])[i] && r@[i].event.subject@ == SubjectView::Exec(cid@, exec_id@)
                    && r@[i].event.exit_code == exit_code,
    {
        let subject = Subject::Exec(cid.to_string(), exec_id.to_string());
        let r = self.notify_topic_and_all(Topic::Exec, &subject, exit_code);
        proof {
            lemma_deliveries_index(r@, self@.audience(Topic::Exec), subject@, exit_code);
        }
        r
    }
}

/// A subscription keeps the invariant.
pub proof fn lemma_subscribed_wf(m: MonitorView, t: Topic)
    requires
        m.wf(),
        m.next_id < i64::MAX,
    ensures
        m.subscribed(t).wf(),
{
    let n = m.subscribed(t);
    let id = m.next_id as i64;
    assert(!m.topics.contains_key(id));
    assert forall|u: Topic| #[trigger] n.lists[u].no_duplicates() by {
        if u == t {
            assert forall|i: int, j: int|
                0 <= i < n.lists[u].len() && 0 <= j < n.lists[u].len() && i != j implies n.lists[u][i]
                != n.lists[u][j] by {
                if i < m.lists[t].len() && j < m.lists[t].len() {
                    assert(m.lists[t].no_duplicates());
                } else if i < m.lists[t].len() {
                    assert(m.topics.contains_key(m.lists[t][i]));
                } else if j < m.lists[t].len() {
                    assert(m.topics.contains_key(m.lists[t][j]));
                }
            }
        }
    }
    assert forall|u: Topic, i: int|
        0 <= i < n.lists[u].len() implies #[trigger] n.topics.contains_key(n.lists[u][i])
        && n.topics[n.lists[u][i]] == u by {
        if u == t && i == m.lists[t].len() {
        } else {
            assert(m.topics.contains_key(m.lists[u][i]));
        }
    }
    assert forall|k: i64| #[trigger] n.topics.contains_key(k) implies n.lists[n.topics[k]].contains(
        k,
    ) by {
        if k == id {
            assert(n.lists[t][m.lists[t].len() as int] == id);
        } else {
            let u = m.topics[k];
            assert(m.lists[u].contains(k));
            let i = choose|i: int| 0 <= i < m.lists[u].len() && m.lists[u][i] == k;
            assert(n.lists[u][i] == k);
        }
    }
}

/// An unsubscription keeps the invariant.
#[verifier::spinoff_prover]
pub proof fn lemma_unsubscribed_wf(m: MonitorView, id: i64)
    requires
        m.wf(),
    ensures
        m.unsubscribed(id).wf(),
{
    if m.topics.contains_key(id) {
        let n = m.unsubscribed(id);
        let t = m.topics[id];
        let l = m.lists[t];
        assert(l.contains(id));
        l.index_of_first_ensures(id);
        let k = l.index_of_first(id).unwrap();
        assert(0 <= k < l.len() && l[k] == id);
        let nl = l.remove(k);
        assert(l.remove_value(id) == nl);
        assert(n.lists[t] == nl);
        assert(l.no_duplicates());
        lemma_remove_at(l, k);
        assert forall|u: Topic| u != t implies #[trigger] n.lists[u] == m.lists[u] by {}
        assert forall|u: Topic| #[trigger] n.lists[u].no_duplicates() by {
            if u != t {
                assert(m.lists[u].no_duplicates());
            }
        }
        assert forall|u: Topic, i: int|
            0 <= i < n.lists[u].len() implies #[trigger] n.topics.contains_key(n.lists[u][i])
            && n.topics[n.lists[u][i]] == u by {
            if u == t {
                let i0 = if i < k { i } else { i + 1 };
                assert(nl[i] == l[i0]);
                lemma_listed_is_registered(m, t, i0);
                assert(nl[i] != id);
            } else {
                lemma_listed_is_registered(m, u, i);
                assert(m.lists[u][i] != id) by {
                    if m.lists[u][i] == id {
                        assert(m.topics[id] == u);
                    }
                }
            }
        }
        assert forall|x: i64| #[trigger] n.topics.contains_key(x) implies n.lists[n.topics[x]].contains(
            x,
        ) by {
            let u = m.topics[x];
            assert(x != id);
            assert(n.topics[x] == u);
            assert(m.lists[u].contains(x));
            let i = choose|i: int| 0 <= i < m.lists[u].len() && m.lists[u][i] == x;
            if u == t {
                assert(i != k);
                assert(nl.contains(l[i]));
            } else {
                assert(n.lists[u][i] == x);
            }
        }
    }
}

/// Removing the element at `k` from a list without duplicates leaves a list
/// without duplicates that holds every other element and not the removed one.
proof fn lemma_remove_at(l: Seq<i64>, k: int)
    requires
        0 <= k < l.len(),
        l.no_duplicates(),
    ensures
        l.remove(k).len() == l.len() - 1,
        l.remove(k).no_duplicates(),
        forall|i: int|
            0 <= i < l.remove(k).len() ==> #[trigger] l.remove(k)[i] == l[if i < k {
                i
            } else {
                i + 1
            }] && l.remove(k)[i] != l[k],
        forall|i: int| 0 <= i < l.len() && i != k ==> l.remove(k).contains(#[trigger] l[i]),
{
    let r = l.remove(k);
    l.remove_ensures(k);
    assert forall|i: int| 0 <= i < r.len() implies #[trigger] r[i] == l[if i < k {
        i
    } else {
        i + 1
    }] && r[i] != l[k] by {
        let i0 = if i < k { i } else { i + 1 };
        assert(r[i] == l[i0]);
        assert(i0 != k);
    }
    assert forall|i: int, j: int| 0 <= i < r.len() && 0 <= j < r.len() && i != j implies r[i]
        != r[j] by {
        let i0 = if i < k { i } else { i + 1 };
        let j0 = if j < k { j } else { j + 1 };
        assert(r[i] == l[i0]);
        assert(r[j] == l[j0]);
    }
    assert forall|i: int| 0 <= i < l.len() && i != k implies r.contains(#[trigger] l[i]) by {
        let i1 = if i < k { i } else { i - 1 };
        assert(r[i1] == l[i]);
    }
}

/// Unsubscribing the subscriber that a subscription just registered gives
/// back the registry and every topic's subscribers as they were; only the
/// id counter has moved on, so the id is never handed out again.
pub proof fn law_unsubscribe_undoes_subscribe(m: MonitorView, t: Topic)
    requires
        m.wf(),
        m.next_id < i64::MAX,
    ensures
        m.subscribed(t).unsubscribed(m.next_id as i64).topics == m.topics,
        m.subscribed(t).unsubscribed(m.next_id as i64).lists == m.lists,
        m.subscribed(t).unsubscribed(m.next_id as i64).next_id == m.next_id + 1,
{
    let id = m.next_id as i64;
    let s = m.subscribed(t);
    let l = m.lists[t];
    assert(!m.topics.contains_key(id));
    assert(s.topics.contains_key(id) && s.topics[id] == t);
    assert(!l.contains(id)) by {
        if l.contains(id) {
            let i = choose|i: int| 0 <= i < l.len() && l[i] == id;
            assert(m.topics.contains_key(l[i]));
        }
    }
    let p = l.push(id);
    assert(p[l.len() as int] == id);
    assert(p.contains(id));
    p.index_of_first_ensures(id);
    let k = p.index_of_first(id).unwrap();
    if k < l.len() {
        assert(p[k] == l[k]);
    }
    assert(k == l.len());
    assert(p.remove_value(id) =~= l);
    assert(s.unsubscribed(id).topics =~= m.topics);
    assert(s.unsubscribed(id).lists =~= m.lists);
}

/// An exit reported under topic `t` (pids or execs) reaches a subscriber
/// exactly when it is registered for `t` or for all topics, and reaches it
/// once.
pub proof fn law_audience(m: MonitorView, t: Topic, id: i64)
    requires
        m.wf(),
        t != Topic::All,
    ensures
        m.audience(t).contains(id) <==> (m.topics.contains_key(id) && (m.topics[id] == t
            || m.topics[id] == Topic::All)),
        m.audience(t).no_duplicates(),
{
    let a = m.lists[t];
    let b = m.lists[Topic::All];
    let au = m.audience(t);
    assert(au =~= a + b);
    if au.contains(id) {
        let i = choose|i: int| 0 <= i < au.len() && au[i] == id;
        if i < a.len() {
            assert(au[i] == a[i]);
            assert(m.topics.contains_key(a[i]));
        } else {
            assert(au[i] == b[i - a.len()]);
            assert(m.topics.contains_key(b[i - a.len()]));
        }
    }
    if m.topics.contains_key(id) && (m.topics[id] == t || m.topics[id] == Topic::All) {
        let u = m.topics[id];
        assert(m.lists[u].contains(id));
        let i = choose|i: int| 0 <= i < m.lists[u].len() && m.lists[u][i] == id;
        if u == t {
            assert(au[i] == id);
        } else {
            assert(au[a.len() + i] == id);
        }
    }
    assert forall|i: int, j: int| 0 <= i < au.len() && 0 <= j < au.len() && i != j implies au[i]
        != au[j] by {
        assert(a.no_duplicates());
        assert(b.no_duplicates());
        if i < a.len() && j >= a.len() {
            lemma_listed_is_registered(m, t, i);
            lemma_listed_is_registered(m, Topic::All, j - a.len());
        } else if j < a.len() && i >= a.len() {
            lemma_listed_is_registered(m, t, j);
            lemma_listed_is_registered(m, Topic::All, i - a.len());
        } else if i >= a.len() && j >= a.len() {
            assert(b[i - a.len()] != b[j - a.len()]);
        } else {
            assert(a[i] != a[j]);
        }
    }
}

/// Every listed subscriber is registered under the topic it is listed for.
proof fn lemma_listed_is_registered(m: MonitorView, u: Topic, i: int)
    requires
        m.wf(),
        0 <= i < m.lists[u].len(),
    ensures
        m.topics.contains_key(m.lists[u][i]),
        m.topics[m.lists[u][i]] == u,
{
    let x = m.lists[u][i];
    assert(m.topics.contains_key(x));
    assert(m.topics[x] == u);
}

/// Once a subscriber has unsubscribed it is told of no further exit.
pub proof fn law_unsubscribed_hears_nothing(m: MonitorView, id: i64, t: Topic)
    requires
        m.wf(),
        t != Topic::All,
    ensures
        !m.unsubscribed(id).audience(t).contains(id),
{
    lemma_unsubscribed_wf(m, id);
    law_audience(m.unsubscribed(id), t, id);
    if !m.topics.contains_key(id) {
        law_audience(m, t, id);
    }
}

/// Reads the deliveries one by one off their views.
proof fn lemma_deliveries_index(r: Seq<Delivery>, ids: Seq<i64>, subject: SubjectView, exit_code: i32)
    requires
        r.map_values(|d: Delivery| d@) == deliveries_to(ids, subject, exit_code),
    ensures
        r.len() == ids.len(),
        forall|i: int|
            0 <= i < r.len() ==> #[trigger] r[i].subscriber == ids[i] && r[i].event.subject@
                == subject && r[i].event.exit_code == exit_code,
{
    assert(r.map_values(|d: Delivery| d@).len() == r.len());
    assert forall|i: int| 0 <= i < r.len() implies #[trigger] r[i].subscriber == ids[i]
        && r[i].event.subject@ == subject && r[i].event.exit_code == exit_code by {
        assert(r.map_values(|d: Delivery| d@)[i] == r[i]@);
        assert(deliveries_to(ids, subject, exit_code)[i] == (ids[i], subject, exit_code));
    }
}

/// After `id` unsubscribes, a topic lists exactly the subscribers it listed
/// before, less `id`.
pub proof fn law_unsubscribe_membership(m: MonitorView, id: i64, u: Topic, x: i64)
    requires
        m.wf(),
    ensures
        m.unsubscribed(id).lists[u].contains(x) <==> (m.lists[u].contains(x) && x != id),
{
    if m.topics.contains_key(id) {
        let t = m.topics[id];
        let l = m.lists[t];
        assert(l.contains(id));
        l.index_of_first_ensures(id);
        let k = l.index_of_first(id).unwrap();
        assert(l.remove_value(id) == l.remove(k));
        lemma_remove_at(l, k);
        if u == t {
            let nl = l.remove(k);
            if nl.contains(x) {
                let i = choose|i: int| 0 <= i < nl.len() && nl[i] == x;
                let i0 = if i < k { i } else { i + 1 };
                assert(nl[i] == l[i0]);
            }
            if l.contains(x) && x != id {
                let i = choose|i: int| 0 <= i < l.len() && l[i] == x;
                assert(i != k);
            }
        } else {
            if m.lists[u].contains(x) {
                let i = choose|i: int| 0 <= i < m.lists[u].len() && m.lists[u][i] == x;
                lemma_listed_is_registered(m, u, i);
            }
        }
    } else {
        if m.lists[u].contains(x) {
            let i = choose|i: int| 0 <= i < m.lists[u].len() && m.lists[u][i] == x;
            lemma_listed_is_registered(m, u, i);
        }
    }
}

/// After a subscription to `t`, a topic lists exactly what it listed
/// before, and `t` also lists the new id, last.
pub proof fn law_subscribe_membership(m: MonitorView, t: Topic, u: Topic, x: i64)
    requires
        m.wf(),
        m.next_id < i64::MAX,
    ensures
        m.subscribed(t).lists[u].contains(x) <==> (m.lists[u].contains(x) || (u == t && x
            == m.next_id)),
        m.subscribed(t).lists[t].last() == m.next_id,
        m.subscribed(t).topics.contains_key(x) <==> (m.topics.contains_key(x) || x == m.next_id),
{
    let s = m.subscribed(t);
    if u == t {
        let l = m.lists[t];
        let p = l.push(m.next_id as i64);
        if p.contains(x) {
            let i = choose|i: int| 0 <= i < p.len() && p[i] == x;
            if i < l.len() {
                assert(l[i] == x);
            }
        }
        if l.contains(x) {
            let i = choose|i: int| 0 <= i < l.len() && l[i] == x;
            assert(p[i] == x);
        }
        if x == m.next_id {
            assert(p[l.len() as int] == x);
        }
    }
}

} // verus!
