//! The Keychain reads that the user has agreed to.

use vstd::prelude::*;
use vstd::string::*;
use crate::text::{self, joined, same_text};

verus! {

pub const NOT_CONSENTABLE: &'static str = "client does not read the Keychain";

pub const INVALID_CONSENT: &'static str = "invalid Keychain consent JSON: ";

/// The clients that may be read for. A client that is not in it was never asked about, or was
/// declined: there is no difference.
pub struct ConsentRegistry {
    pub granted: Vec<String>,
}

impl View for ConsentRegistry {
    type V = Set<Seq<char>>;

    open spec fn view(&self) -> Set<Seq<char>> {
        text::texts(self.granted@).to_set()
    }
}

/// A client that was asked about although it reads nothing.
pub struct RejectedClient {
    pub client: String,
    pub reason: &'static str,
}

/// What replacing the registry did.
pub struct ConsentOutcome {
    pub granted_count: usize,
    pub rejected: Vec<RejectedClient>,
}

/// The clients that consent is asked for.
pub open spec fn consentable(client: Seq<char>) -> bool {
    client == "grok-bot"@
}

fn is_consentable(client: &str) -> (r: bool)
    ensures
        r == consentable(client@),
{
    same_text(client, "grok-bot")
}

/// Pairs of client and answer.
pub open spec fn answers(list: Seq<(String, bool)>) -> Seq<(Seq<char>, bool)> {
    list.map_values(|entry: (String, bool)| (entry.0@, entry.1))
}

/// The clients that are granted by a list of answers.
pub open spec fn grants(list: Seq<(Seq<char>, bool)>) -> Set<Seq<char>> {
    Set::new(|client: Seq<char>| consentable(client) && list.contains((client, true)))
}

/// The clients of a list that nothing is asked for, in order.
pub open spec fn refusals(list: Seq<(Seq<char>, bool)>) -> Seq<Seq<char>>
    decreases list.len(),
{
    if list.len() == 0 {
        Seq::empty()
    } else if consentable(list.last().0) {
        refusals(list.drop_last())
    } else {
        refusals(list.drop_last()).push(list.last().0)
    }
}

/// Whether no client stands twice in a list.
pub open spec fn distinct(list: Seq<(Seq<char>, bool)>) -> bool {
    forall|i: int, j: int| 0 <= i < j < list.len() ==> (#[trigger] list[i]).0 != (
    #[trigger] list[j]).0
}

/// Whether one text stands before another: at the first place where they differ it has the lower
/// character, or it ends there.
pub open spec fn text_precedes(one: Seq<char>, other: Seq<char>) -> bool {
    exists|n: int|
        {
            &&& 0 <= n <= one.len()
            &&& n < other.len()
            &&& #[trigger] one.take(n) == other.take(n)
            &&& n == one.len() || (one[n] as u32) < (other[n] as u32)
        }
}

/// Whether texts stand in ascending order, none of them twice.
pub open spec fn ascending(names: Seq<Seq<char>>) -> bool {
    forall|i: int, j: int|
        0 <= i < j < names.len() ==> text_precedes(#[trigger] names[i], #[trigger] names[j])
}

/// The clients of a list, in order.
pub open spec fn clients(list: Seq<(Seq<char>, bool)>) -> Seq<Seq<char>> {
    list.map_values(|entry: (Seq<char>, bool)| entry.0)
}

/// The answers that a JSON object of truth values holds, by client in ascending order, or what is
/// wrong with it.
pub uninterp spec fn consent_entries(raw: Seq<char>) -> Result<
    Seq<(Seq<char>, bool)>,
    Seq<char>,
>;

/// `serde_json::from_str` to a `BTreeMap` from text to truth values. A key that stands twice
/// counts once, and the map is walked in ascending order of its keys; an error is what its
/// `Display` says.
#[verifier::external_body]
fn parse_consent(raw: &str) -> (r: Result<Vec<(String, bool)>, String>)
    ensures
        (match r {
            Ok(list) => Ok(answers(list@)),
            Err(message) => Err(message@),
        }) == consent_entries(raw@),
        r matches Ok(list) ==> ascending(clients(answers(list@))),
{
    serde_json::from_str::<std::collections::BTreeMap<String, bool>>(raw).map(
        |entries| entries.into_iter().collect(),
    ).map_err(|error| error.to_string())
}

pub fn new_registry() -> (r: ConsentRegistry)
    ensures
        r@ == Set::<Seq<char>>::empty(),
{
    let r = ConsentRegistry { granted: Vec::new() };
    assert(r@ =~= Set::<Seq<char>>::empty());
    r
}

/// Whether the user has agreed to a Keychain read for a client.
pub fn allowed(registry: &ConsentRegistry, client_id: &str) -> (r: bool)
    ensures
        r == registry@.contains(client_id@),
{
    let ghost list = text::texts(registry.granted@);
    let mut i: usize = 0;
    while i < registry.granted.len()
        invariant
            i <= registry.granted@.len(),
            list == text::texts(registry.granted@),
            forall|j: int| 0 <= j < i ==> list[j] != client_id@,
        decreases registry.granted@.len() - i,
    {
        assert(list[i as int] == registry.granted@[i as int]@);
        if same_text(&registry.granted[i], client_id) {
            assert(list.contains(client_id@));
            return true;
        }
        i += 1;
    }
    assert(!list.contains(client_id@));
    false
}

/// Forgets every grant.
pub fn reset_for_test(registry: &mut ConsentRegistry)
    ensures
        final(registry)@ == Set::<Seq<char>>::empty(),
{
    registry.granted = Vec::new();
    assert(registry@ =~= Set::<Seq<char>>::empty());
}

/// The names that rejected clients have.
pub open spec fn rejected_names(list: Seq<RejectedClient>) -> Seq<Seq<char>> {
    list.map_values(|rejected: RejectedClient| rejected.client@)
}

impl ConsentOutcome {
    /// Counts the grants of a list of answers, and names the clients in it that nothing is asked
    /// for.
    pub open spec fn reports(self, list: Seq<(Seq<char>, bool)>) -> bool {
        &&& self.granted_count == grants(list).len()
        &&& rejected_names(self.rejected@) == refusals(list)
        &&& forall|i: int|
            0 <= i < self.rejected@.len() ==> (#[trigger] self.rejected@[i]).reason@
                == NOT_CONSENTABLE@
    }
}

/// Replaces the whole registry by the grants of a list of answers in which no client stands
/// twice. A client that nothing is asked for is reported, and not stored.
pub fn set_answers(registry: &mut ConsentRegistry, list: &Vec<(String, bool)>) -> (r:
    ConsentOutcome)
    requires
        distinct(answers(list@)),
    ensures
        final(registry)@ == grants(answers(list@)),
        r.reports(answers(list@)),
{
    let ghost all = answers(list@);
    let mut granted: Vec<String> = Vec::new();
    let mut rejected: Vec<RejectedClient> = Vec::new();
    let mut i: usize = 0;
    proof {
        assert(all.take(0) =~= Seq::empty());
        assert(rejected_names(rejected@) =~= refusals(all.take(0)));
        assert(text::texts(granted@).to_set() =~= grants(all.take(0)));
    }
    while i < list.len()
        invariant
            i <= list@.len(),
            all == answers(list@),
            distinct(all),
            text::texts(granted@).to_set() == grants(all.take(i as int)),
            text::texts(granted@).no_duplicates(),
            rejected_names(rejected@) == refusals(all.take(i as int)),
            forall|j: int|
                0 <= j < rejected@.len() ==> (#[trigger] rejected@[j]).reason@ == NOT_CONSENTABLE@,
        decreases list@.len() - i,
    {
        let ghost done = all.take(i as int);
        let ghost next = all.take(i + 1);
        let ghost before = granted@;
        let ghost refused = rejected@;
        proof {
            assert(next =~= done.push(all[i as int]));
            assert(next.drop_last() =~= done);
            assert(all[i as int] == (list@[i as int].0@, list@[i as int].1));
        }
        let client = list[i].0.clone();
        if !is_consentable(&client) {
            let added = RejectedClient { client, reason: NOT_CONSENTABLE };
            rejected.push(added);
            assert(rejected_names(rejected@) =~= rejected_names(refused).push(added.client@));
            assert(grants(next) =~= grants(done)) by {
                lemma_grants_push(done, all[i as int]);
            }
        } else if list[i].1 {
            granted.push(client);
            proof {
                let was = text::texts(before);
                let is = text::texts(granted@);
                assert(is =~= was.push(client@));
                lemma_grants_push(done, all[i as int]);
                assert(!grants(done).contains(client@)) by {
                    if done.contains((client@, true)) {
                        let j = choose|j: int| 0 <= j < done.len() && done[j] == (client@, true);
                        assert(all[j].0 == all[i as int].0);
                    }
                }
                assert(!was.contains(client@)) by {
                    if was.contains(client@) {
                        assert(was.to_set().contains(client@));
                    }
                }
                assert(is.no_duplicates());
                assert forall|c: Seq<char>| is.to_set().contains(c) <==> grants(next).contains(
                    c,
                ) by {
                    if is.contains(c) {
                        let k = choose|k: int| 0 <= k < is.len() && is[k] == c;
                        if k < was.len() {
                            assert(was[k] == c);
                            assert(was.to_set().contains(c));
                        }
                    }
                    if grants(next).contains(c) {
                        if c != client@ {
                            assert(grants(done).contains(c));
                            assert(was.to_set().contains(c));
                            let k = choose|k: int| 0 <= k < was.len() && was[k] == c;
                            assert(is[k] == c);
                        } else {
                            assert(is[was.len() as int] == c);
                        }
                    }
                }
                assert(is.to_set() =~= grants(next));
            }
        } else {
            assert(grants(next) =~= grants(done)) by {
                lemma_grants_push(done, all[i as int]);
            }
        }
        i += 1;
    }
    proof {
        assert(all.take(i as int) =~= all);
        text::texts(granted@).unique_seq_to_set();
    }
    let granted_count: usize = granted.len();
    registry.granted = granted;
    ConsentOutcome { granted_count, rejected }
}

proof fn lemma_grants_push(list: Seq<(Seq<char>, bool)>, added: (Seq<char>, bool))
    ensures
        grants(list.push(added)) == (if consentable(added.0) && added.1 {
            grants(list).insert(added.0)
        } else {
            grants(list)
        }),
{
    let longer = list.push(added);
    let expected = if consentable(added.0) && added.1 {
        grants(list).insert(added.0)
    } else {
        grants(list)
    };
    assert forall|c: Seq<char>| grants(longer).contains(c) <==> expected.contains(c) by {
        if longer.contains((c, true)) {
            let i = choose|i: int| 0 <= i < longer.len() && longer[i] == (c, true);
            if i < list.len() {
                assert(list[i] == (c, true));
            }
        }
        if list.contains((c, true)) {
            let i = choose|i: int| 0 <= i < list.len() && list[i] == (c, true);
            assert(longer[i] == (c, true));
        }
        if added == (c, true) {
            assert(longer[list.len() as int] == added);
        }
    }
    assert(grants(longer) =~= expected);
}

proof fn lemma_ascending_is_distinct(list: Seq<(Seq<char>, bool)>)
    requires
        ascending(clients(list)),
    ensures
        distinct(list),
{
    let names = clients(list);
    assert forall|i: int, j: int| 0 <= i < j < list.len() implies (#[trigger] list[i]).0 != (
    #[trigger] list[j]).0 by {
        assert(text_precedes(names[i], names[j]));
    }
}

proof fn lemma_refusals_keep_order(list: Seq<(Seq<char>, bool)>)
    requires
        ascending(clients(list)),
    ensures
        ascending(refusals(list)),
        forall|i: int|
            0 <= i < refusals(list).len() ==> clients(list).contains(#[trigger] refusals(list)[i]),
    decreases list.len(),
{
    if list.len() > 0 {
        let names = clients(list);
        let rest = list.drop_last();
        assert(clients(rest) =~= names.drop_last());
        assert forall|i: int, j: int| 0 <= i < j < rest.len() implies text_precedes(
            #[trigger] clients(rest)[i],
            #[trigger] clients(rest)[j],
        ) by {
            assert(clients(rest)[i] == names[i] && clients(rest)[j] == names[j]);
        }
        lemma_refusals_keep_order(rest);
        let kept = refusals(rest);
        let all = refusals(list);
        assert(names.last() == list.last().0);
        assert forall|i: int| 0 <= i < all.len() implies names.contains(#[trigger] all[i]) by {
            if i < kept.len() {
                assert(clients(rest).contains(kept[i]));
                let k = choose|k: int| 0 <= k < rest.len() && clients(rest)[k] == kept[i];
                assert(names[k] == all[i]);
            } else {
                assert(names[names.len() - 1] == all[i]);
            }
        }
        assert forall|i: int, j: int| 0 <= i < j < all.len() implies text_precedes(
            #[trigger] all[i],
            #[trigger] all[j],
        ) by {
            if j < kept.len() {
                assert(all[i] == kept[i] && all[j] == kept[j]);
            } else {
                assert(clients(rest).contains(kept[i]));
                let k = choose|k: int| 0 <= k < rest.len() && clients(rest)[k] == kept[i];
                assert(names[k] == all[i]);
                assert(names[names.len() - 1] == all[j]);
            }
        }
    }
}

/// Replaces the whole registry by the answers in a JSON object. Text that is no such object is an
/// error and leaves the registry as it was. The rejected clients are named in ascending order.
pub fn set_from_json(registry: &mut ConsentRegistry, raw: &str) -> (r: Result<
    ConsentOutcome,
    String,
>)
    ensures
        match consent_entries(raw@) {
            Ok(list) => {
                &&& r matches Ok(outcome) && outcome.reports(list) && ascending(
                    rejected_names(outcome.rejected@),
                )
                &&& final(registry)@ == grants(list)
                &&& ascending(clients(list))
            },
            Err(message) => {
                &&& r matches Err(said) && said@ == INVALID_CONSENT@ + message
                &&& final(registry)@ == old(registry)@
            },
        },
{
    match parse_consent(raw) {
        Ok(list) => {
            proof {
                lemma_ascending_is_distinct(answers(list@));
                lemma_refusals_keep_order(answers(list@));
            }
            Ok(set_answers(registry, &list))
        },
        Err(message) => Err(joined(INVALID_CONSENT, &message)),
    }
}

/// The registry never allows a client that nothing is asked for, and a client that is answered
/// with no is not allowed afterwards.
pub proof fn only_granted_clients_are_allowed(list: Seq<(Seq<char>, bool)>, client: Seq<char>)
    requires
        distinct(list),
    ensures
        !consentable(client) ==> !grants(list).contains(client),
        list.contains((client, false)) ==> !grants(list).contains(client),
        grants(Seq::<(Seq<char>, bool)>::empty()) == Set::<Seq<char>>::empty(),
{
    if list.contains((client, false)) && list.contains((client, true)) {
        let i = choose|i: int| 0 <= i < list.len() && list[i] == (client, false);
        let j = choose|j: int| 0 <= j < list.len() && list[j] == (client, true);
        assert(list[i].0 == list[j].0);
        assert(i != j);
    }
    assert(grants(Seq::<(Seq<char>, bool)>::empty()) =~= Set::<Seq<char>>::empty());
}

/// Consent is granted for Grok Bot exactly where it is answered with yes, and for nothing else.
pub proof fn consent_is_for_grok_bot_alone(list: Seq<(Seq<char>, bool)>, client: Seq<char>)
    ensures
        grants(list).contains("grok-bot"@) <==> list.contains(("grok-bot"@, true)),
        client != "grok-bot"@ ==> !grants(list).contains(client),
{
}

/// Every client that nothing is asked for is named, whatever its answer is, and no other is. They
/// are as many as such answers, and each stands behind those before it.
pub proof fn other_clients_are_named(list: Seq<(Seq<char>, bool)>, i: int)
    requires
        0 <= i < list.len(),
        list[i].0 != "grok-bot"@,
    ensures
        others(list.take(i)) < refusals(list).len(),
        refusals(list)[others(list.take(i)) as int] == list[i].0,
        refusals(list).len() == others(list),
    decreases list.len(),
{
    let rest = list.drop_last();
    lemma_refusals_counted(rest);
    lemma_refusals_counted(list);
    if i == list.len() - 1 {
        assert(list.take(i) =~= rest);
    } else {
        assert(list.take(i) =~= rest.take(i));
        assert(rest[i] == list[i]);
        other_clients_are_named(rest, i);
    }
}

/// How many answers are for another client than Grok Bot.
pub open spec fn others(list: Seq<(Seq<char>, bool)>) -> nat
    decreases list.len(),
{
    if list.len() == 0 {
        0
    } else {
        others(list.drop_last()) + (if list.last().0 != "grok-bot"@ {
            1nat
        } else {
            0
        })
    }
}

proof fn lemma_refusals_counted(list: Seq<(Seq<char>, bool)>)
    ensures
        refusals(list).len() == others(list),
    decreases list.len(),
{
    if list.len() > 0 {
        lemma_refusals_counted(list.drop_last());
    }
}

/// What is reported is what was granted and what was refused: one grant at most, the refused
/// clients in order, each with the same reason.
pub proof fn outcomes_report_grants_and_refusals(
    outcome: ConsentOutcome,
    list: Seq<(Seq<char>, bool)>,
    i: int,
)
    requires
        outcome.reports(list),
        0 <= i < list.len(),
        list[i].0 != "grok-bot"@,
    ensures
        outcome.rejected@.len() == others(list),
        outcome.rejected@[others(list.take(i)) as int].client@ == list[i].0,
        outcome.rejected@[others(list.take(i)) as int].reason@
            == "client does not read the Keychain"@,
        list.contains(("grok-bot"@, true)) ==> outcome.granted_count == 1,
        !list.contains(("grok-bot"@, true)) ==> outcome.granted_count == 0,
{
    other_clients_are_named(list, i);
    let names = rejected_names(outcome.rejected@);
    assert(names.len() == outcome.rejected@.len());
    assert(names[others(list.take(i)) as int] == outcome.rejected@[others(
        list.take(i),
    ) as int].client@);
    if list.contains(("grok-bot"@, true)) {
        assert(grants(list) =~= Set::<Seq<char>>::empty().insert("grok-bot"@));
    } else {
        assert(grants(list) =~= Set::<Seq<char>>::empty());
    }
}

} // verus!
