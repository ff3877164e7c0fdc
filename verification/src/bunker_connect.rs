//! The connection string that a client needs to reach the signer.

use vstd::prelude::*;
use crate::signer::public_key_of;
use crate::user_keys::NostrKeys;
use crate::user_relays::{relays_view, NostrRelayList, RelayView, UserRelay};

verus! {

/// One `relay=` parameter for each relay, each closed by `&`.
pub open spec fn relay_params(relays: Seq<RelayView>) -> Seq<char>
    decreases relays.len(),
{
    if relays.len() == 0 {
        Seq::<char>::empty()
    } else {
        relay_params(relays.drop_last()) + "relay="@ + relays.last().url + "&"@
    }
}

/// The connection string for a public key and a relay list.
pub open spec fn bunker_string(public_key: Seq<char>, relays: Seq<RelayView>) -> Seq<char> {
    "bunker://"@ + public_key + "?"@ + relay_params(relays)
}

/// Builds the connection string from a public key and the relays.
pub fn bunker_url(public_key: &String, relays: &Vec<UserRelay>) -> (url: String)
    ensures
        url@ == bunker_string(public_key@, relays_view(relays@)),
{
    let mut url = String::from_str("bunker://");
    url.append(public_key.as_str());
    url.append("?");
    let ghost head = url@;
    let ghost all = relays_view(relays@);
    let mut i: usize = 0;
    assert(all.take(0) =~= Seq::<RelayView>::empty());
    assert(url@ =~= head + relay_params(all.take(0)));
    while i < relays.len()
        invariant
            i <= relays.len(),
            all == relays_view(relays@),
            url@ == head + relay_params(all.take(i as int)),
        decreases relays.len() - i,
    {
        proof {
            assert(all.take(i + 1).drop_last() =~= all.take(i as int));
            assert(all.take(i + 1).last() == relays[i as int]@);
        }
        url.append("relay=");
        url.append(relays[i].url.as_str());
        url.append("&");
        assert(url@ =~= head + relay_params(all.take(i + 1)));
        i += 1;
    }
    assert(all.take(i as int) =~= all);
    url
}

/// The connection string that is offered for copying: none while no key is
/// loaded or no relay is configured.
pub fn bunker_connect(keys: &NostrKeys, relays: &NostrRelayList) -> (url: Option<String>)
    ensures
        match url {
            Some(text) => keys@ matches Some(secret) && relays@.len() > 0 && text@ == bunker_string(
                public_key_of(secret),
                relays@,
            ),
            None => keys@ is None || relays@.len() == 0,
        },
{
    if !keys.has_keys() || relays.len() == 0 {
        None
    } else {
        let public_key = keys.get_pubkey();
        let list = relays.get_relays();
        Some(bunker_url(&public_key, &list))
    }
}

} // verus!
