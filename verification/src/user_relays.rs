//! The user's relay configuration: the list, its reducer and the rules for
//! adding, toggling and removing a relay.

use vstd::prelude::*;
use crate::storage::{effects_view, DocumentView, EffectView, IdbDocument, IdbStores, StoreEffect};
use crate::text::{begins_with, lowercase_of, starts_with, to_lowercase};

verus! {

/// Mathematical value of a relay configuration.
pub struct RelayView {
    pub url: Seq<char>,
    pub read: bool,
    pub write: bool,
}

/// One configured relay.  `read` lets requests in from it, `write` lets
/// responses out to it.  A relay is identified by its `url`.
#[derive(Clone, Debug, PartialEq, Eq)]
pub struct UserRelay {
    pub url: String,
    pub read: bool,
    pub write: bool,
}

impl View for UserRelay {
    type V = RelayView;

    open spec fn view(&self) -> RelayView {
        RelayView { url: self.url@, read: self.read, write: self.write }
    }
}

impl UserRelay {
    /// A copy with the same value.
    pub fn duplicate(&self) -> (copy: UserRelay)
        ensures
            copy@ == self@,
    {
        UserRelay { url: self.url.clone(), read: self.read, write: self.write }
    }
}

/// The views of a list of relays, in order.
pub open spec fn relays_view(relays: Seq<UserRelay>) -> Seq<RelayView> {
    relays.map_values(|r: UserRelay| r@)
}

/// The list with every relay of the given address taken out.
pub open spec fn without_url(list: Seq<RelayView>, url: Seq<char>) -> Seq<RelayView> {
    list.filter(|r: RelayView| r.url != url)
}

/// Whether no two entries of a list have the same address.
pub open spec fn distinct_urls(list: Seq<RelayView>) -> bool {
    forall|i: int, j: int| #![trigger list[i], list[j]] 0 <= i < j < list.len() ==> list[i].url != list[j].url
}

/// Whether a list has an entry of the given address.
pub open spec fn lists_url(list: Seq<RelayView>, url: Seq<char>) -> bool {
    exists|i: int| 0 <= i < list.len() && (#[trigger] list[i]).url == url
}

/// The list after relays read from the durable store have been taken in:
/// each goes to the end, in order, unless its address is listed already.
pub open spec fn hydrated(list: Seq<RelayView>, more: Seq<RelayView>) -> Seq<RelayView>
    decreases more.len(),
{
    if more.len() == 0 {
        list
    } else {
        let sofar = hydrated(list, more.drop_last());
        if lists_url(sofar, more.last().url) {
            sofar
        } else {
            sofar.push(more.last())
        }
    }
}

/// Whether index `i` holds the first relay of the given address.
pub open spec fn is_first_with_url(list: Seq<RelayView>, url: Seq<char>, i: int) -> bool {
    &&& 0 <= i < list.len()
    &&& list[i].url == url
    &&& forall|j: int| 0 <= j < i ==> (#[trigger] list[j]).url != url
}

/// The list with the flags of `relay` written over the first entry of the
/// same address; an address that is not listed changes nothing.
pub open spec fn with_flags_of(list: Seq<RelayView>, relay: RelayView) -> Seq<RelayView> {
    Seq::new(
        list.len(),
        |i: int|
            if is_first_with_url(list, relay.url, i) {
                RelayView { url: list[i].url, read: relay.read, write: relay.write }
            } else {
                list[i]
            },
    )
}

/// What the user can do to the relay list.
#[derive(Clone, Debug)]
pub enum RelayListAction {
    /// Relays read from the durable store at startup; they are appended,
    /// except those whose address is listed already.
    InitRelays(Vec<UserRelay>),
    /// A new relay, which goes to the front of the list and replaces any
    /// entry of the same address.
    AddRelay(UserRelay),
    /// Takes out every entry with the relay's address.
    RemoveRelay(UserRelay),
    /// Sets the flags of the first entry with the relay's address.
    ModifyRelay(UserRelay),
}

/// Mathematical value of an action on the relay list.
pub enum RelayActionView {
    InitRelays(Seq<RelayView>),
    AddRelay(RelayView),
    RemoveRelay(RelayView),
    ModifyRelay(RelayView),
}

impl View for RelayListAction {
    type V = RelayActionView;

    open spec fn view(&self) -> RelayActionView {
        match self {
            RelayListAction::InitRelays(relays) => RelayActionView::InitRelays(relays_view(relays@)),
            RelayListAction::AddRelay(relay) => RelayActionView::AddRelay(relay@),
            RelayListAction::RemoveRelay(relay) => RelayActionView::RemoveRelay(relay@),
            RelayListAction::ModifyRelay(relay) => RelayActionView::ModifyRelay(relay@),
        }
    }
}

/// The list after an action.
pub open spec fn relays_after(list: Seq<RelayView>, action: RelayActionView) -> Seq<RelayView> {
    match action {
        RelayActionView::InitRelays(relays) => hydrated(list, relays),
        RelayActionView::AddRelay(relay) => seq![relay] + without_url(list, relay.url),
        RelayActionView::RemoveRelay(relay) => without_url(list, relay.url),
        RelayActionView::ModifyRelay(relay) => with_flags_of(list, relay),
    }
}

/// The writes to the durable store that an action asks for.
pub open spec fn relay_effects(action: RelayActionView) -> Seq<EffectView> {
    match action {
        RelayActionView::InitRelays(_) => seq![],
        RelayActionView::AddRelay(relay) => seq![
            EffectView::Put(IdbStores::UserRelays, DocumentView::UserRelay(relay)),
        ],
        RelayActionView::RemoveRelay(relay) => seq![EffectView::Delete(IdbStores::UserRelays, relay.url)],
        RelayActionView::ModifyRelay(relay) => seq![
            EffectView::Put(IdbStores::UserRelays, DocumentView::UserRelay(relay)),
        ],
    }
}

/// The relay list, newest first.  No two of its entries have the same
/// address.
#[derive(Debug)]
pub struct NostrRelayList {
    user_relays: Vec<UserRelay>,
}

impl Clone for NostrRelayList {
    fn clone(&self) -> (copy: NostrRelayList)
        ensures
            copy@ == self@,
    {
        proof {
            use_type_invariant(self);
        }
        NostrRelayList { user_relays: copy_relays(&self.user_relays) }
    }
}

impl View for NostrRelayList {
    type V = Seq<RelayView>;

    closed spec fn view(&self) -> Seq<RelayView> {
        relays_view(self.user_relays@)
    }
}

/// A copy of a list of relays.
pub fn copy_relays(relays: &Vec<UserRelay>) -> (out: Vec<UserRelay>)
    ensures
        relays_view(out@) == relays_view(relays@),
{
    let mut out: Vec<UserRelay> = Vec::new();
    let mut i: usize = 0;
    while i < relays.len()
        invariant
            i <= relays.len(),
            out.len() == i,
            forall|k: int| 0 <= k < i ==> out[k]@ == #[trigger] relays[k]@,
        decreases relays.len() - i,
    {
        out.push(relays[i].duplicate());
        i += 1;
    }
    assert(relays_view(out@) =~= relays_view(relays@));
    out
}

/// What is kept of a list when an address is taken out: nothing of that
/// address, only entries of the list, and distinct addresses where the list
/// had them.
pub proof fn lemma_without_url(list: Seq<RelayView>, url: Seq<char>)
    ensures
        forall|i: int|
            0 <= i < without_url(list, url).len() ==> (#[trigger] without_url(list, url)[i]).url != url
                && list.contains(without_url(list, url)[i]),
        distinct_urls(list) ==> distinct_urls(without_url(list, url)),
    decreases list.len(),
{
    reveal(Seq::filter);
    let kept = without_url(list, url);
    if list.len() > 0 {
        let rest = list.drop_last();
        let kept_rest = without_url(rest, url);
        lemma_without_url(rest, url);
        assert forall|i: int| 0 <= i < kept.len() implies (#[trigger] kept[i]).url != url && list.contains(
            kept[i],
        ) by {
            if i < kept_rest.len() {
                assert(kept[i] == kept_rest[i]);
                assert(rest.contains(kept_rest[i]));
                let k = choose|k: int| 0 <= k < rest.len() && rest[k] == kept_rest[i];
                assert(list[k] == kept[i]);
            } else {
                assert(list[list.len() - 1] == kept[i]);
            }
        }
        if distinct_urls(list) {
            assert(distinct_urls(rest)) by {
                assert forall|i: int, j: int| #![trigger rest[i], rest[j]] 0 <= i < j < rest.len() implies rest[i].url
                    != rest[j].url by {
                    assert(list[i].url != list[j].url);
                }
            }
            assert forall|i: int, j: int| #![trigger kept[i], kept[j]] 0 <= i < j < kept.len() implies kept[i].url
                != kept[j].url by {
                if j < kept_rest.len() {
                    assert(kept_rest[i].url != kept_rest[j].url);
                } else {
                    assert(kept[i] == kept_rest[i]);
                    assert(rest.contains(kept_rest[i]));
                    let k = choose|k: int| 0 <= k < rest.len() && rest[k] == kept_rest[i];
                    assert(list[k].url != list[list.len() - 1].url);
                }
            }
        }
    }
}

/// Adding a relay lists it exactly once: it stands in front as it was
/// given, no other entry has its address, the entries of other addresses
/// follow in their old order, and the addresses stay distinct.
pub proof fn added_relay_is_listed_once(list: Seq<RelayView>, relay: RelayView)
    requires
        distinct_urls(list),
    ensures
        relays_after(list, RelayActionView::AddRelay(relay))[0] == relay,
        forall|i: int|
            1 <= i < relays_after(list, RelayActionView::AddRelay(relay)).len() ==> (#[trigger] relays_after(
                list,
                RelayActionView::AddRelay(relay),
            )[i]).url != relay.url,
        relays_after(list, RelayActionView::AddRelay(relay)).skip(1) == without_url(list, relay.url),
        distinct_urls(relays_after(list, RelayActionView::AddRelay(relay))),
{
    let kept = without_url(list, relay.url);
    let after = relays_after(list, RelayActionView::AddRelay(relay));
    lemma_without_url(list, relay.url);
    assert(after.skip(1) =~= kept);
    assert forall|i: int| 1 <= i < after.len() implies (#[trigger] after[i]).url != relay.url by {
        assert(after[i] == kept[i - 1]);
    }
    assert forall|i: int, j: int| #![trigger after[i], after[j]] 0 <= i < j < after.len() implies after[i].url
        != after[j].url by {
        assert(after[j] == kept[j - 1]);
        if i > 0 {
            assert(after[i] == kept[i - 1]);
        }
    }
}

/// Taking in stored relays keeps the addresses distinct.
pub proof fn lemma_hydrated_distinct(list: Seq<RelayView>, more: Seq<RelayView>)
    requires
        distinct_urls(list),
    ensures
        distinct_urls(hydrated(list, more)),
    decreases more.len(),
{
    if more.len() > 0 {
        lemma_hydrated_distinct(list, more.drop_last());
        let sofar = hydrated(list, more.drop_last());
        let after = hydrated(list, more);
        if !lists_url(sofar, more.last().url) {
            assert forall|i: int, j: int| #![trigger after[i], after[j]] 0 <= i < j < after.len() implies after[i].url
                != after[j].url by {
                if j < sofar.len() {
                    assert(sofar[i].url != sofar[j].url);
                } else {
                    assert(sofar[i].url != more.last().url);
                }
            }
        }
    }
}

/// Every action keeps the addresses of the list distinct.
pub proof fn reduce_keeps_urls_distinct(list: Seq<RelayView>, action: RelayActionView)
    requires
        distinct_urls(list),
    ensures
        distinct_urls(relays_after(list, action)),
{
    match action {
        RelayActionView::InitRelays(relays) => lemma_hydrated_distinct(list, relays),
        RelayActionView::AddRelay(relay) => added_relay_is_listed_once(list, relay),
        RelayActionView::RemoveRelay(relay) => lemma_without_url(list, relay.url),
        RelayActionView::ModifyRelay(relay) => {
            let after = with_flags_of(list, relay);
            assert forall|i: int, j: int| #![trigger after[i], after[j]] 0 <= i < j < after.len() implies after[i].url
                != after[j].url by {
                assert(list[i].url != list[j].url);
            }
        },
    }
}

impl NostrRelayList {
    #[verifier::type_invariant]
    spec fn distinct(self) -> bool {
        distinct_urls(relays_view(self.user_relays@))
    }

    /// The empty list.
    pub fn new() -> (list: NostrRelayList)
        ensures
            list@ == Seq::<RelayView>::empty(),
    {
        let list = NostrRelayList { user_relays: Vec::new() };
        assert(list@ =~= Seq::<RelayView>::empty());
        list
    }

    /// The configured relays, in order.  Their addresses are distinct.
    pub fn get_relays(&self) -> (relays: Vec<UserRelay>)
        ensures
            relays_view(relays@) == self@,
            distinct_urls(self@),
    {
        proof {
            use_type_invariant(self);
        }
        copy_relays(&self.user_relays)
    }

    /// The number of configured relays.
    pub fn len(&self) -> (n: usize)
        ensures
            n == self@.len(),
    {
        self.user_relays.len()
    }

    /// Applies an action and says which writes the durable store is owed.
    /// The new list is returned at once; the writes are for the caller to
    /// carry out, and their outcome does not change the list.
    pub fn reduce(self, action: RelayListAction) -> (next: (NostrRelayList, Vec<StoreEffect>))
        ensures
            next.0@ == relays_after(self@, action@),
            effects_view(next.1@) == relay_effects(action@),
            distinct_urls(self@),
            distinct_urls(next.0@),
    {
        proof {
            use_type_invariant(&self);
            reduce_keeps_urls_distinct(self@, action@);
        }
        match action {
            RelayListAction::InitRelays(relays) => {
                let user_relays = take_in(self.user_relays, &relays);
                let effects: Vec<StoreEffect> = Vec::new();
                assert(effects_view(effects@) =~= seq![]);
                (NostrRelayList { user_relays }, effects)
            },
            RelayListAction::AddRelay(relay) => {
                let mut user_relays = remove_by_url(&self.user_relays, &relay.url);
                let ghost kept = relays_view(user_relays@);
                let record = relay.duplicate();
                user_relays.insert(0, relay);
                let mut effects: Vec<StoreEffect> = Vec::new();
                effects.push(StoreEffect::Put(IdbStores::UserRelays, IdbDocument::UserRelay(record)));
                assert(relays_view(user_relays@) =~= seq![relay@] + kept);
                assert(effects_view(effects@) =~= relay_effects(action@));
                (NostrRelayList { user_relays }, effects)
            },
            RelayListAction::RemoveRelay(relay) => {
                let user_relays = remove_by_url(&self.user_relays, &relay.url);
                let mut effects: Vec<StoreEffect> = Vec::new();
                effects.push(StoreEffect::Delete(IdbStores::UserRelays, relay.url));
                assert(effects_view(effects@) =~= relay_effects(action@));
                (NostrRelayList { user_relays }, effects)
            },
            RelayListAction::ModifyRelay(relay) => {
                let mut user_relays = self.user_relays;
                let ghost before = relays_view(user_relays@);
                let found = first_with_url(&user_relays, &relay.url);
                match found {
                    Some(i) => {
                        let changed = UserRelay {
                            url: user_relays[i].url.clone(),
                            read: relay.read,
                            write: relay.write,
                        };
                        user_relays.set(i, changed);
                        assert forall|k: int| 0 <= k < before.len() && k != i implies !is_first_with_url(
                            before,
                            relay@.url,
                            k,
                        ) by {
                            if k > i {
                                assert(before[i as int].url == relay@.url);
                            }
                        }
                    },
                    None => {},
                }
                let mut effects: Vec<StoreEffect> = Vec::new();
                effects.push(StoreEffect::Put(IdbStores::UserRelays, IdbDocument::UserRelay(relay)));
                assert(relays_view(user_relays@) =~= with_flags_of(before, relay@));
                assert(effects_view(effects@) =~= relay_effects(action@));
                (NostrRelayList { user_relays }, effects)
            },
        }
    }
}

/// Takes stored relays into a list: each goes to the end, in order, unless
/// its address is listed already.
pub fn take_in(list: Vec<UserRelay>, more: &Vec<UserRelay>) -> (out: Vec<UserRelay>)
    ensures
        relays_view(out@) == hydrated(relays_view(list@), relays_view(more@)),
{
    let mut out = list;
    let ghost start = relays_view(list@);
    let ghost all = relays_view(more@);
    let mut i: usize = 0;
    assert(all.take(0) =~= Seq::<RelayView>::empty());
    while i < more.len()
        invariant
            i <= more.len(),
            all == relays_view(more@),
            relays_view(out@) == hydrated(start, all.take(i as int)),
        decreases more.len() - i,
    {
        let ghost sofar = relays_view(out@);
        proof {
            assert(all.take(i + 1).drop_last() =~= all.take(i as int));
            assert(all.take(i + 1).last() == more[i as int]@);
        }
        match first_with_url(&out, &more[i].url) {
            Some(k) => {
                assert(sofar[k as int].url == more[i as int]@.url);
            },
            None => {
                out.push(more[i].duplicate());
                assert(relays_view(out@) =~= sofar.push(more[i as int]@));
            },
        }
        i += 1;
    }
    assert(all.take(i as int) =~= all);
    out
}

/// The index of the first relay with the given address.
pub fn first_with_url(relays: &Vec<UserRelay>, url: &String) -> (found: Option<usize>)
    ensures
        match found {
            Some(i) => is_first_with_url(relays_view(relays@), url@, i as int),
            None => forall|j: int| 0 <= j < relays.len() ==> (#[trigger] relays_view(relays@)[j]).url != url@,
        },
{
    let mut i: usize = 0;
    while i < relays.len()
        invariant
            i <= relays.len(),
            forall|j: int| 0 <= j < i ==> (#[trigger] relays_view(relays@)[j]).url != url@,
        decreases relays.len() - i,
    {
        if relays[i].url == *url {
            return Some(i);
        }
        i += 1;
    }
    None
}

/// The relays whose address differs from `url`, in order.
pub fn remove_by_url(relays: &Vec<UserRelay>, url: &String) -> (out: Vec<UserRelay>)
    ensures
        relays_view(out@) == without_url(relays_view(relays@), url@),
{
    let mut out: Vec<UserRelay> = Vec::new();
    let mut i: usize = 0;
    let ghost all = relays_view(relays@);
    assert(all.take(0) =~= Seq::<RelayView>::empty());
    assert(relays_view(out@) =~= Seq::<RelayView>::empty());
    proof {
        reveal(Seq::filter);
    }
    while i < relays.len()
        invariant
            i <= relays.len(),
            all == relays_view(relays@),
            relays_view(out@) == without_url(all.take(i as int), url@),
        decreases relays.len() - i,
    {
        let ghost kept = relays_view(out@);
        proof {
            reveal(Seq::filter);
            assert(all.take(i + 1).drop_last() =~= all.take(i as int));
            assert(all.take(i + 1).last() == relays[i as int]@);
        }
        if relays[i].url != *url {
            out.push(relays[i].duplicate());
            assert(relays_view(out@) =~= kept.push(relays[i as int]@));
        }
        i += 1;
    }
    assert(all.take(i as int) =~= all);
    out
}

/// Why a relay could not be added.
#[derive(Clone, Copy, Debug, PartialEq, Eq, Structural)]
pub enum AddRelayError {
    /// Nothing was typed.
    EmptyUrl,
    /// No relay answered at the address.
    InvalidAddress,
}

impl AddRelayError {
    /// The notice shown to the user.
    pub fn to_string(&self) -> (text: String)
        ensures
            text@ == (match *self {
                AddRelayError::EmptyUrl => "URL cannot be empty!"@,
                AddRelayError::InvalidAddress => "Invalid relay address!"@,
            }),
    {
        match self {
            AddRelayError::EmptyUrl => String::from_str("URL cannot be empty!"),
            AddRelayError::InvalidAddress => String::from_str("Invalid relay address!"),
        }
    }
}

/// A lower-case address with the secure-websocket scheme in front, unless it
/// is there already.
pub open spec fn with_scheme(lowered: Seq<char>) -> Seq<char> {
    if begins_with(lowered, "wss://"@) {
        lowered
    } else {
        "wss://"@ + lowered
    }
}

/// The address under which a relay typed by the user is tried and kept.
pub open spec fn normalized_url(input: Seq<char>) -> Result<Seq<char>, AddRelayError> {
    if input.len() == 0 {
        Err(AddRelayError::EmptyUrl)
    } else {
        Ok(with_scheme(lowercase_of(input)))
    }
}

/// Puts the scheme in front of a lower-case address that lacks it.
pub fn ensure_scheme(lowered: String) -> (url: String)
    ensures
        url@ == with_scheme(lowered@),
{
    if starts_with(lowered.as_str(), "wss://") {
        lowered
    } else {
        let mut url = String::from_str("wss://");
        url.append(lowered.as_str());
        url
    }
}

/// Normalises an address typed by the user: it is refused if empty, else
/// lower-cased and given the `wss://` scheme.
pub fn normalize_relay_url(input: &str) -> (out: Result<String, AddRelayError>)
    ensures
        match out {
            Ok(url) => normalized_url(input@) == Ok::<Seq<char>, AddRelayError>(url@),
            Err(e) => normalized_url(input@) == Err::<Seq<char>, AddRelayError>(e),
        },
{
    if input.is_empty() {
        Err(AddRelayError::EmptyUrl)
    } else {
        Ok(ensure_scheme(to_lowercase(input)))
    }
}

/// The action that adds a relay once its address has been tried: a relay
/// that answered is added with both flags set, one that did not is refused.
pub fn new_relay(url: String, reachable: bool) -> (out: Result<RelayListAction, AddRelayError>)
    ensures
        match out {
            Ok(action) => reachable && action@ == RelayActionView::AddRelay(
                RelayView { url: url@, read: true, write: true },
            ),
            Err(e) => !reachable && e == AddRelayError::InvalidAddress,
        },
{
    if reachable {
        Ok(RelayListAction::AddRelay(UserRelay { url, read: true, write: true }))
    } else {
        Err(AddRelayError::InvalidAddress)
    }
}

/// The action that flips the `read` flag of a relay.
pub fn toggle_read(relay: &UserRelay) -> (action: RelayListAction)
    ensures
        action@ == RelayActionView::ModifyRelay(RelayView { read: !relay@.read, ..relay@ }),
{
    RelayListAction::ModifyRelay(UserRelay { url: relay.url.clone(), read: !relay.read, write: relay.write })
}

/// The action that flips the `write` flag of a relay.
pub fn toggle_write(relay: &UserRelay) -> (action: RelayListAction)
    ensures
        action@ == RelayActionView::ModifyRelay(RelayView { write: !relay@.write, ..relay@ }),
{
    RelayListAction::ModifyRelay(UserRelay { url: relay.url.clone(), read: relay.read, write: !relay.write })
}

/// The action that removes a relay, if the user confirmed it.
pub fn remove_relay(relay: &UserRelay, confirmed: bool) -> (action: Option<RelayListAction>)
    ensures
        match action {
            Some(a) => confirmed && a@ == RelayActionView::RemoveRelay(relay@),
            None => !confirmed,
        },
{
    if confirmed {
        Some(RelayListAction::RemoveRelay(relay.duplicate()))
    } else {
        None
    }
}

/// The address of a relay without its scheme, for display.
pub open spec fn host_of(url: Seq<char>) -> Seq<char> {
    if begins_with(url, "wss://"@) {
        url.subrange(6, url.len() as int)
    } else {
        url
    }
}

/// The address of a relay as it is listed: without the `wss://` scheme.
pub fn relay_host(url: &String) -> (host: String)
    ensures
        host@ == host_of(url@),
{
    proof {
        reveal_strlit("wss://");
    }
    if starts_with(url.as_str(), "wss://") {
        let n = url.as_str().unicode_len();
        String::from_str(url.as_str().substring_char(6, n))
    } else {
        url.clone()
    }
}

/// After a removal no relay of that address is left in the list.
pub proof fn removed_url_is_absent(list: Seq<RelayView>, relay: RelayView)
    ensures
        forall|i: int|
            0 <= i < relays_after(list, RelayActionView::RemoveRelay(relay)).len() ==> (#[trigger] relays_after(
                list,
                RelayActionView::RemoveRelay(relay),
            )[i]).url != relay.url,
{
    let kept = without_url(list, relay.url);
    assert forall|i: int| 0 <= i < kept.len() implies (#[trigger] kept[i]).url != relay.url by {
        list.lemma_filter_pred(|r: RelayView| r.url != relay.url, i);
    }
}

} // verus!
