//! The secrets that the desktop shell keeps in the platform keychain and hands
//! to the sidecar: a fixed set of supported keys, each with at most one
//! non-blank value.
use vstd::prelude::*;

use crate::json::{
    decode_string_object, encode_string_object, json_error_text, json_string_object,
    json_text_of_strings, pairs_view,
};
use crate::text::{join2, same_text, trim_text, trimmed};

verus! {

/// How many secret keys the application supports.
pub const SUPPORTED_KEY_COUNT: usize = 21;

/// The supported secret keys, in the order in which they are listed.
pub open spec fn supported_keys() -> Seq<Seq<char>> {
    seq![
        "GROQ_API_KEY"@,
        "OPENROUTER_API_KEY"@,
        "FRED_API_KEY"@,
        "EIA_API_KEY"@,
        "CLOUDFLARE_API_TOKEN"@,
        "ACLED_ACCESS_TOKEN"@,
        "URLHAUS_AUTH_KEY"@,
        "OTX_API_KEY"@,
        "ABUSEIPDB_API_KEY"@,
        "WINGBITS_API_KEY"@,
        "WS_RELAY_URL"@,
        "VITE_OPENSKY_RELAY_URL"@,
        "OPENSKY_CLIENT_ID"@,
        "OPENSKY_CLIENT_SECRET"@,
        "AISSTREAM_API_KEY"@,
        "VITE_WS_RELAY_URL"@,
        "FINNHUB_API_KEY"@,
        "NASA_FIRMS_API_KEY"@,
        "OLLAMA_API_URL"@,
        "OLLAMA_MODEL"@,
        "WORLDMONITOR_API_KEY"@,
    ]
}

/// The supported key at position `i`.
pub fn supported_key(i: usize) -> (r: &'static str)
    requires
        i < SUPPORTED_KEY_COUNT,
    ensures
        r@ == supported_keys()[i as int],
{
    match i {
        0 => "GROQ_API_KEY",
        1 => "OPENROUTER_API_KEY",
        2 => "FRED_API_KEY",
        3 => "EIA_API_KEY",
        4 => "CLOUDFLARE_API_TOKEN",
        5 => "ACLED_ACCESS_TOKEN",
        6 => "URLHAUS_AUTH_KEY",
        7 => "OTX_API_KEY",
        8 => "ABUSEIPDB_API_KEY",
        9 => "WINGBITS_API_KEY",
        10 => "WS_RELAY_URL",
        11 => "VITE_OPENSKY_RELAY_URL",
        12 => "OPENSKY_CLIENT_ID",
        13 => "OPENSKY_CLIENT_SECRET",
        14 => "AISSTREAM_API_KEY",
        15 => "VITE_WS_RELAY_URL",
        16 => "FINNHUB_API_KEY",
        17 => "NASA_FIRMS_API_KEY",
        18 => "OLLAMA_API_URL",
        19 => "OLLAMA_MODEL",
        _ => "WORLDMONITOR_API_KEY",
    }
}

/// The first position from `from` on at which `k` is listed among the
/// supported keys, or `None` when there is none.
pub open spec fn slot_from(k: Seq<char>, from: int) -> Option<int>
    decreases SUPPORTED_KEY_COUNT - from,
{
    if from < 0 || from >= SUPPORTED_KEY_COUNT {
        None
    } else if supported_keys()[from] == k {
        Some(from)
    } else {
        slot_from(k, from + 1)
    }
}

/// The first position at which `k` is listed among the supported keys, or
/// `None` when it is not supported.
pub open spec fn key_slot(k: Seq<char>) -> Option<int> {
    slot_from(k, 0)
}

/// A slot found from `from` on is a position at or after `from` that holds
/// `k`; when none is found, no position from `from` on holds it.
pub proof fn lemma_slot_from(k: Seq<char>, from: int)
    requires
        0 <= from,
    ensures
        slot_from(k, from) matches Some(i) ==> from <= i < SUPPORTED_KEY_COUNT
            && supported_keys()[i] == k,
        slot_from(k, from) is None ==> forall|i: int|
            from <= i < SUPPORTED_KEY_COUNT ==> supported_keys()[i] != k,
    decreases SUPPORTED_KEY_COUNT - from,
{
    if from < SUPPORTED_KEY_COUNT && supported_keys()[from] != k {
        lemma_slot_from(k, from + 1);
    }
}

/// The slot of a supported key is a position that holds it; a key without
/// a slot is listed nowhere.
pub proof fn lemma_key_slot(k: Seq<char>)
    ensures
        key_slot(k) matches Some(i) ==> 0 <= i < SUPPORTED_KEY_COUNT && supported_keys()[i] == k,
        key_slot(k) is None ==> forall|i: int|
            0 <= i < SUPPORTED_KEY_COUNT ==> supported_keys()[i] != k,
{
    lemma_slot_from(k, 0);
}

/// Where `key` is listed among the supported keys, if it is.
pub fn find_supported_key(key: &str) -> (r: Option<usize>)
    ensures
        match key_slot(key@) {
            Some(i) => r == Some(i as usize),
            None => r is None,
        },
        key_slot(key@) matches Some(i) ==> 0 <= i < SUPPORTED_KEY_COUNT,
{
    proof {
        lemma_key_slot(key@);
    }
    let mut i: usize = 0;
    while i < SUPPORTED_KEY_COUNT
        invariant
            i <= SUPPORTED_KEY_COUNT,
            key_slot(key@) == slot_from(key@, i as int),
        decreases SUPPORTED_KEY_COUNT - i,
    {
        if same_text(key, supported_key(i)) {
            return Some(i);
        }
        i = i + 1;
    }
    None
}

/// The supported secret keys, in order.
pub fn list_supported_secret_keys() -> (r: Vec<String>)
    ensures
        r@.len() == SUPPORTED_KEY_COUNT,
        forall|i: int| 0 <= i < SUPPORTED_KEY_COUNT ==> #[trigger] r@[i]@ == supported_keys()[i],
{
    let mut r: Vec<String> = Vec::new();
    let mut i: usize = 0;
    while i < SUPPORTED_KEY_COUNT
        invariant
            i <= SUPPORTED_KEY_COUNT,
            r@.len() == i,
            forall|j: int| 0 <= j < i ==> #[trigger] r@[j]@ == supported_keys()[j],
        decreases SUPPORTED_KEY_COUNT - i,
    {
        r.push(String::from_str(supported_key(i)));
        i = i + 1;
    }
    r
}

/// The error for a key that is not supported.
pub open spec fn unsupported_key_message(key: Seq<char>) -> Seq<char> {
    "Unsupported secret key: "@ + key
}

fn unsupported_key_error(key: &str) -> (r: String)
    ensures
        r@ == unsupported_key_message(key@),
{
    join2("Unsupported secret key: ", key)
}

/// What a trimmed value leaves in the store: nothing when it is blank.
pub open spec fn kept_value(v: Seq<char>) -> Option<Seq<char>> {
    if trimmed(v).len() == 0 {
        None
    } else {
        Some(trimmed(v))
    }
}

/// The view of an optional string.
pub open spec fn opt_view(o: Option<String>) -> Option<Seq<char>> {
    match o {
        Some(s) => Some(s@),
        None => None,
    }
}

/// The value that the last pair with key `k` among the first `n` of `ps`
/// gives, if there is one.
pub open spec fn last_value_for(ps: Seq<(Seq<char>, Seq<char>)>, k: Seq<char>, n: int) -> Option<
    Seq<char>,
>
    decreases n,
{
    if n <= 0 {
        None
    } else if ps[n - 1].0 == k {
        Some(ps[n - 1].1)
    } else {
        last_value_for(ps, k, n - 1)
    }
}

/// The store that a decoded vault gives: each supported key whose value is
/// not blank, with that value trimmed. A later pair for a key replaces an
/// earlier one.
pub open spec fn store_of_pairs(ps: Seq<(Seq<char>, Seq<char>)>) -> Seq<Option<Seq<char>>> {
    Seq::new(
        SUPPORTED_KEY_COUNT as nat,
        |i: int|
            match last_value_for(ps, supported_keys()[i], ps.len() as int) {
                Some(v) => kept_value(v),
                None => None,
            },
    )
}

/// The store that one value read per supported key gives.
pub open spec fn store_of_values(vs: Seq<Option<Seq<char>>>) -> Seq<Option<Seq<char>>> {
    Seq::new(
        SUPPORTED_KEY_COUNT as nat,
        |i: int|
            match vs[i] {
                Some(v) => kept_value(v),
                None => None,
            },
    )
}

/// The entries of a store among its first `n` slots, as key and value pairs
/// in the order of the supported keys.
pub open spec fn entries_upto(slots: Seq<Option<Seq<char>>>, n: int) -> Seq<(Seq<char>, Seq<char>)>
    decreases n,
{
    if n <= 0 {
        seq![]
    } else {
        let prev = entries_upto(slots, n - 1);
        match slots[n - 1] {
            Some(v) => prev.push((supported_keys()[n - 1], v)),
            None => prev,
        }
    }
}

/// The entries of a store, in the order of the supported keys.
pub open spec fn store_entries(slots: Seq<Option<Seq<char>>>) -> Seq<(Seq<char>, Seq<char>)> {
    entries_upto(slots, slots.len() as int)
}

/// The secrets held in memory: for each supported key, its trimmed value, or
/// nothing. No value is blank.
pub struct SecretStore {
    values: Vec<Option<String>>,
}

impl View for SecretStore {
    type V = Seq<Option<Seq<char>>>;

    closed spec fn view(&self) -> Seq<Option<Seq<char>>> {
        self.values@.map_values(|o: Option<String>| opt_view(o))
    }
}

impl SecretStore {
    /// One slot per supported key, and no blank value.
    pub closed spec fn wf(&self) -> bool {
        &&& self.values@.len() == SUPPORTED_KEY_COUNT
        &&& forall|i: int|
            0 <= i < self.values@.len() ==> match #[trigger] self.values@[i] {
                Some(v) => v@.len() > 0,
                None => true,
            }
    }

    /// A well-formed store has one slot per supported key, none of them
    /// blank.
    pub proof fn lemma_wf_slots(&self)
        requires
            self.wf(),
        ensures
            self@.len() == SUPPORTED_KEY_COUNT,
            forall|i: int|
                0 <= i < SUPPORTED_KEY_COUNT ==> (#[trigger] self@[i] matches Some(v) ==> v.len()
                    > 0),
    {
        assert forall|i: int| 0 <= i < SUPPORTED_KEY_COUNT implies (#[trigger] self@[i] matches Some(
            v,
        ) ==> v.len() > 0) by {
            assert(self@[i] == opt_view(self.values@[i]));
        }
    }

    /// A store with no secrets.
    pub fn new() -> (r: SecretStore)
        ensures
            r.wf(),
            r@ == Seq::new(SUPPORTED_KEY_COUNT as nat, |i: int| None::<Seq<char>>),
    {
        let mut values: Vec<Option<String>> = Vec::new();
        let mut i: usize = 0;
        while i < SUPPORTED_KEY_COUNT
            invariant
                i <= SUPPORTED_KEY_COUNT,
                values@.len() == i,
                forall|j: int| 0 <= j < i ==> values@[j] is None,
            decreases SUPPORTED_KEY_COUNT - i,
        {
            values.push(None);
            i = i + 1;
        }
        let r = SecretStore { values };
        assert(r@ =~= Seq::new(SUPPORTED_KEY_COUNT as nat, |i: int| None::<Seq<char>>));
        r
    }

    fn kept(value: &str) -> (r: Option<String>)
        ensures
            opt_view(r) == kept_value(value@),
            r matches Some(v) ==> v@.len() > 0,
    {
        let t = trim_text(value);
        if t.as_str().is_empty() {
            None
        } else {
            Some(t)
        }
    }

    fn put(&mut self, i: usize, v: Option<String>)
        requires
            old(self).wf(),
            i < SUPPORTED_KEY_COUNT,
            v matches Some(s) ==> s@.len() > 0,
        ensures
            final(self).wf(),
            final(self)@ == old(self)@.update(i as int, opt_view(v)),
    {
        self.values.set(i, v);
        assert(self@ =~= old(self)@.update(i as int, opt_view(v)));
    }

    /// The value stored under `key`, or the error for an unsupported key.
    pub fn get_secret(&self, key: &str) -> (r: Result<Option<String>, String>)
        requires
            self.wf(),
        ensures
            match key_slot(key@) {
                None => r matches Err(e) && e@ == unsupported_key_message(key@),
                Some(i) => r matches Ok(v) && opt_view(v) == self@[i],
            },
    {
        match find_supported_key(key) {
            None => Err(unsupported_key_error(key)),
            Some(i) => {
                let v = match &self.values[i] {
                    Some(s) => Some(s.clone()),
                    None => None,
                };
                assert(self@[i as int] == opt_view(self.values@[i as int]));
                Ok(v)
            },
        }
    }

    /// The store as it is to be after `key` is set to `value`: the trimmed
    /// value, or no value when it is blank. The store itself is left as it
    /// is, so that the caller can persist the new one before it takes its
    /// place.
    pub fn with_secret(&self, key: &str, value: &str) -> (r: Result<SecretStore, String>)
        requires
            self.wf(),
        ensures
            match key_slot(key@) {
                None => r matches Err(e) && e@ == unsupported_key_message(key@),
                Some(i) => r matches Ok(s) && s.wf() && s@ == self@.update(i, kept_value(value@)),
            },
    {
        match find_supported_key(key) {
            None => Err(unsupported_key_error(key)),
            Some(i) => {
                let mut s = self.clone_store();
                s.put(i, Self::kept(value));
                Ok(s)
            },
        }
    }

    /// The store as it is to be after the value of `key` is deleted. The
    /// store itself is left as it is.
    pub fn without_secret(&self, key: &str) -> (r: Result<SecretStore, String>)
        requires
            self.wf(),
        ensures
            match key_slot(key@) {
                None => r matches Err(e) && e@ == unsupported_key_message(key@),
                Some(i) => r matches Ok(s) && s.wf() && s@ == self@.update(i, None),
            },
    {
        match find_supported_key(key) {
            None => Err(unsupported_key_error(key)),
            Some(i) => {
                let mut s = self.clone_store();
                s.put(i, None);
                Ok(s)
            },
        }
    }

    /// A copy of the store.
    pub fn clone_store(&self) -> (r: SecretStore)
        requires
            self.wf(),
        ensures
            r.wf(),
            r@ == self@,
    {
        let mut values: Vec<Option<String>> = Vec::new();
        let mut i: usize = 0;
        while i < self.values.len()
            invariant
                self.wf(),
                i <= self.values@.len(),
                values@.len() == i,
                forall|j: int| 0 <= j < i ==> #[trigger] values@[j] == self.values@[j],
            decreases self.values@.len() - i,
        {
            let v = match &self.values[i] {
                Some(s) => Some(s.clone()),
                None => None,
            };
            values.push(v);
            i = i + 1;
        }
        let r = SecretStore { values };
        assert(r.values@ =~= self.values@);
        r
    }

    /// Whether no key has a value.
    pub fn is_empty(&self) -> (r: bool)
        requires
            self.wf(),
        ensures
            r == forall|i: int| 0 <= i < SUPPORTED_KEY_COUNT ==> #[trigger] self@[i] is None,
    {
        let mut i: usize = 0;
        while i < self.values.len()
            invariant
                self.wf(),
                i <= self.values@.len(),
                forall|j: int| 0 <= j < i ==> #[trigger] self@[j] is None,
            decreases self.values@.len() - i,
        {
            assert(self@[i as int] == opt_view(self.values@[i as int]));
            if self.values[i].is_some() {
                return false;
            }
            i = i + 1;
        }
        true
    }

    /// The keys that have a value, each with its value, in the order of the
    /// supported keys.
    pub fn entries(&self) -> (r: Vec<(String, String)>)
        requires
            self.wf(),
        ensures
            pairs_view(r@) == store_entries(self@),
    {
        let mut r: Vec<(String, String)> = Vec::new();
        let mut i: usize = 0;
        while i < self.values.len()
            invariant
                self.wf(),
                i <= self.values@.len(),
                pairs_view(r@) == entries_upto(self@, i as int),
            decreases self.values@.len() - i,
        {
            assert(self@[i as int] == opt_view(self.values@[i as int]));
            match &self.values[i] {
                Some(v) => {
                    let ghost before = r@;
                    r.push((String::from_str(supported_key(i)), v.clone()));
                    assert(pairs_view(r@) =~= pairs_view(before).push(
                        (supported_keys()[i as int], v@),
                    ));
                },
                None => {},
            }
            i = i + 1;
        }
        r
    }

    /// The store that a decoded vault gives: the supported keys among
    /// `pairs` whose value is not blank, with the value trimmed. Other keys
    /// are dropped; of two pairs with one key, the later counts.
    pub fn from_vault_entries(pairs: &Vec<(String, String)>) -> (r: SecretStore)
        ensures
            r.wf(),
            r@ == store_of_pairs(pairs_view(pairs@)),
    {
        let mut values: Vec<Option<String>> = Vec::new();
        let mut i: usize = 0;
        while i < SUPPORTED_KEY_COUNT
            invariant
                i <= SUPPORTED_KEY_COUNT,
                values@.len() == i,
                forall|j: int|
                    0 <= j < i ==> opt_view(#[trigger] values@[j]) == store_of_pairs(
                        pairs_view(pairs@),
                    )[j],
                forall|j: int|
                    0 <= j < i ==> match #[trigger] values@[j] {
                        Some(v) => v@.len() > 0,
                        None => true,
                    },
            decreases SUPPORTED_KEY_COUNT - i,
        {
            let v = match last_pair_for(pairs, supported_key(i)) {
                Some(k) => Self::kept(pairs[k].1.as_str()),
                None => None,
            };
            values.push(v);
            i = i + 1;
        }
        let r = SecretStore { values };
        assert(r@ =~= store_of_pairs(pairs_view(pairs@)));
        r
    }

    /// The store that one value read per supported key gives (`values[i]`
    /// for the key at position `i`): each value that is not blank, trimmed.
    pub fn from_keychain_values(values: &Vec<Option<String>>) -> (r: SecretStore)
        requires
            values@.len() == SUPPORTED_KEY_COUNT,
        ensures
            r.wf(),
            r@ == store_of_values(values@.map_values(|o: Option<String>| opt_view(o))),
    {
        let ghost vs = values@.map_values(|o: Option<String>| opt_view(o));
        let mut kept: Vec<Option<String>> = Vec::new();
        let mut i: usize = 0;
        while i < SUPPORTED_KEY_COUNT
            invariant
                values@.len() == SUPPORTED_KEY_COUNT,
                vs == values@.map_values(|o: Option<String>| opt_view(o)),
                i <= SUPPORTED_KEY_COUNT,
                kept@.len() == i,
                forall|j: int|
                    0 <= j < i ==> opt_view(#[trigger] kept@[j]) == store_of_values(vs)[j],
                forall|j: int|
                    0 <= j < i ==> match #[trigger] kept@[j] {
                        Some(v) => v@.len() > 0,
                        None => true,
                    },
            decreases SUPPORTED_KEY_COUNT - i,
        {
            assert(vs[i as int] == opt_view(values@[i as int]));
            let v = match &values[i] {
                Some(s) => Self::kept(s.as_str()),
                None => None,
            };
            kept.push(v);
            i = i + 1;
        }
        let r = SecretStore { values: kept };
        assert(r@ =~= store_of_values(vs));
        r
    }
}

impl SecretStore {
    /// The store that the vault's JSON text gives (see `from_vault_entries`),
    /// or `None` when the text is not a JSON object of strings.
    pub fn from_vault_json(json: &str) -> (r: Option<SecretStore>)
        ensures
            match json_string_object(json@) {
                Some(ps) => r matches Some(s) && s.wf() && s@ == store_of_pairs(ps),
                None => r is None,
            },
    {
        match decode_string_object(json) {
            Some(pairs) => Some(Self::from_vault_entries(&pairs)),
            None => None,
        }
    }

    /// The vault's JSON text for this store: one object with an entry for
    /// each key that has a value.
    pub fn vault_json(&self) -> (r: Result<String, String>)
        requires
            self.wf(),
        ensures
            r matches Ok(t) && t@ == json_text_of_strings(store_entries(self@)),
    {
        let pairs = self.entries();
        match encode_string_object(&pairs) {
            Ok(t) => Ok(t),
            Err(e) => Err(join2("Failed to serialize vault: ", json_error_text(&e).as_str())),
        }
    }
}

/// The position of the last pair in `pairs` whose key is `key`.
fn last_pair_for(pairs: &Vec<(String, String)>, key: &str) -> (r: Option<usize>)
    ensures
        match last_value_for(pairs_view(pairs@), key@, pairs@.len() as int) {
            Some(v) => r matches Some(k) && k < pairs@.len() && pairs@[k as int].1@ == v,
            None => r is None,
        },
{
    let ghost ps = pairs_view(pairs@);
    let mut n: usize = pairs.len();
    while n > 0
        invariant
            n <= pairs@.len(),
            ps == pairs_view(pairs@),
            last_value_for(ps, key@, pairs@.len() as int) == last_value_for(ps, key@, n as int),
        decreases n,
    {
        assert(ps[n - 1] == (pairs@[n - 1].0@, pairs@[n - 1].1@));
        if same_text(pairs[n - 1].0.as_str(), key) {
            return Some(n - 1);
        }
        n = n - 1;
    }
    None
}

} // verus!
