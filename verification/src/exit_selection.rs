//! Choosing the exit of the next connection attempt: the best match for the user's selection,
//! while spreading repeated attempts over exits, datacenters, cities and countries.

use vstd::prelude::*;

verus! {

/// An ISO country code, as the API lists it.
#[derive(Clone, Debug)]
pub struct CountryCode(pub String);

/// A city, by its country and the API's city code.
#[derive(Clone, Debug)]
pub struct CityCode {
    pub country_code: CountryCode,
    pub city_code: String,
}

/// An exit server, as the API lists it.
#[derive(Clone, Debug)]
pub struct OneExit {
    pub id: String,
    pub city_code: CityCode,
    pub datacenter_id: u32,
    pub tier: u8,
    pub city_name: String,
    pub provider_name: String,
}

/// An exit that a relay prefers, by its id.
#[derive(Clone, Debug)]
pub struct RelayPreferredExit {
    pub id: String,
}

/// A relay server, as the API lists it.
#[derive(Clone, Debug)]
pub struct OneRelay {
    pub id: String,
    pub city_code: CityCode,
    pub preferred_exits: Vec<RelayPreferredExit>,
}

/// Which exits the user asked for.
#[derive(Clone, Debug)]
pub enum ExitSelector {
    Any {},
    Exit { id: String },
    Country { country_code: CountryCode },
    City { city_code: CityCode },
}

/// A city as a pair of strings: country code and city code.
pub open spec fn city_key(c: CityCode) -> (Seq<char>, Seq<char>) {
    (c.country_code.0@, c.city_code@)
}

/// Whether `exit` is one that `selector` asks for.
pub open spec fn matches_spec(selector: ExitSelector, exit: OneExit) -> bool {
    match selector {
        ExitSelector::Any {} => true,
        ExitSelector::Exit { id } => exit.id@ == id@,
        ExitSelector::Country { country_code } => exit.city_code.country_code.0@ == country_code.0@,
        ExitSelector::City { city_code } => city_key(exit.city_code) == city_key(city_code),
    }
}

impl ExitSelector {
    /// Whether `candidate` is one of the exits this selector asks for.
    pub fn matches(&self, candidate: &OneExit) -> (r: bool)
        ensures
            r == matches_spec(*self, *candidate),
    {
        match self {
            ExitSelector::Any {} => true,
            ExitSelector::Exit { id } => candidate.id == *id,
            ExitSelector::Country { country_code } => candidate.city_code.country_code.0 == country_code.0,
            ExitSelector::City { city_code } => candidate.city_code.country_code.0 == city_code.country_code.0
                && candidate.city_code.city_code == city_code.city_code,
        }
    }
}

impl ExitSelector {
    /// A copy of this selector.
    pub fn copy(&self) -> (r: ExitSelector)
        ensures
            r == *self,
    {
        match self {
            ExitSelector::Any {} => ExitSelector::Any {},
            ExitSelector::Exit { id } => ExitSelector::Exit { id: id.clone() },
            ExitSelector::Country { country_code } => ExitSelector::Country {
                country_code: CountryCode(country_code.0.clone()),
            },
            ExitSelector::City { city_code } => ExitSelector::City {
                city_code: CityCode {
                    country_code: CountryCode(city_code.country_code.0.clone()),
                    city_code: city_code.city_code.clone(),
                },
            },
        }
    }
}

impl Default for ExitSelector {
    fn default() -> (r: Self)
        ensures
            r is Any,
    {
        ExitSelector::Any {}
    }
}

/// How often exits, datacenters, cities and countries were selected since the last reset.
pub ghost struct SelectionModel {
    pub exit_ids: Set<Seq<char>>,
    pub datacenters: Map<u32, u8>,
    pub cities: Map<(Seq<char>, Seq<char>), u8>,
    pub countries: Map<Seq<char>, u8>,
}

/// Selections of one datacenter before its exits are left out.
pub const MAX_DATACENTER_SELECTIONS: u8 = 2;

/// Selections of one city before its exits are left out.
pub const MAX_CITY_SELECTIONS: u8 = 4;

/// Selections of one country before its exits are left out.
pub const MAX_COUNTRY_SELECTIONS: u8 = 6;

/// Whether `m` counts `key` at least `limit` times.
pub open spec fn reached<K>(m: Map<K, u8>, key: K, limit: u8) -> bool {
    m.contains_key(key) && m[key] >= limit
}

/// Whether an exit is left out: it was selected before, or its datacenter, city or country was
/// selected often enough.
pub open spec fn excluded_spec(m: SelectionModel, exit: OneExit) -> bool {
    ||| m.exit_ids.contains(exit.id@)
    ||| reached(m.datacenters, exit.datacenter_id, MAX_DATACENTER_SELECTIONS)
    ||| reached(m.cities, city_key(exit.city_code), MAX_CITY_SELECTIONS)
    ||| reached(m.countries, exit.city_code.country_code.0@, MAX_COUNTRY_SELECTIONS)
}

/// `m` with one more selection of `key`, saturating at `u8::MAX`.
pub open spec fn count_one<K>(m: Map<K, u8>, key: K) -> Map<K, u8> {
    let n: u8 = if m.contains_key(key) { m[key] } else { 0 };
    m.insert(key, if n < u8::MAX { (n + 1) as u8 } else { u8::MAX })
}

/// `m` after selecting `exit`.
pub open spec fn record_selection(m: SelectionModel, exit: OneExit) -> SelectionModel {
    SelectionModel {
        exit_ids: m.exit_ids.insert(exit.id@),
        datacenters: count_one(m.datacenters, exit.datacenter_id),
        cities: count_one(m.cities, city_key(exit.city_code)),
        countries: count_one(m.countries, exit.city_code.country_code.0@),
    }
}

/// A model with nothing selected.
pub open spec fn empty_selection() -> SelectionModel {
    SelectionModel {
        exit_ids: Set::empty(),
        datacenters: Map::empty(),
        cities: Map::empty(),
        countries: Map::empty(),
    }
}

/// Whether `relay` prefers the exit with id `id`.
pub open spec fn is_preferred(relay: OneRelay, id: Seq<char>) -> bool {
    exists|k: int| 0 <= k < relay.preferred_exits@.len() && #[trigger] relay.preferred_exits@[k].id@ == id
}

pub open spec fn flag(b: bool) -> int {
    if b {
        1
    } else {
        0
    }
}

/// The rank of a candidate exit for `relay`, tie-broken by the random `key`: the tuple (preferred
/// by the relay, in the relay's city, in the relay's country, tier, key) compared
/// lexicographically, written as one number with each component in its own bits.
pub open spec fn rank_spec(exit: OneExit, relay: OneRelay, key: u32) -> int {
    flag(is_preferred(relay, exit.id@)) * 0x400_0000_0000 + flag(city_key(relay.city_code) == city_key(
        exit.city_code,
    )) * 0x200_0000_0000 + flag(relay.city_code.country_code.0@ == exit.city_code.country_code.0@)
        * 0x100_0000_0000 + exit.tier * 0x1_0000_0000 + key
}

/// Whether exit `i` is a candidate: asked for and not left out.
pub open spec fn is_candidate(m: SelectionModel, selector: ExitSelector, exits: Seq<OneExit>, i: int) -> bool {
    0 <= i < exits.len() && matches_spec(selector, exits[i]) && !excluded_spec(m, exits[i])
}

/// Whether exit `i` is the pick: a candidate of the highest rank, and the last one of that rank.
pub open spec fn is_pick(
    m: SelectionModel,
    selector: ExitSelector,
    exits: Seq<OneExit>,
    relay: OneRelay,
    keys: Seq<u32>,
    i: int,
) -> bool {
    &&& is_candidate(m, selector, exits, i)
    &&& forall|j: int|
        #[trigger] is_candidate(m, selector, exits, j) ==> rank_spec(exits[j], relay, keys[j]) <= rank_spec(
            exits[i],
            relay,
            keys[i],
        )
    &&& forall|j: int|
        i < j && #[trigger] is_candidate(m, selector, exits, j) ==> rank_spec(exits[j], relay, keys[j])
            < rank_spec(exits[i], relay, keys[i])
}

/// Whether `exit` lies in the city of `relay`: the same country code and city code.
pub open spec fn in_relay_city(exit: OneExit, relay: OneRelay) -> bool {
    exit.city_code.country_code.0@ == relay.city_code.country_code.0@ && exit.city_code.city_code@
        == relay.city_code.city_code@
}

/// Whether `exit` lies in the country of `relay`.
pub open spec fn in_relay_country(exit: OneExit, relay: OneRelay) -> bool {
    exit.city_code.country_code.0@ == relay.city_code.country_code.0@
}

/// The pick ranks first by the relay's preference, then by the relay's city, then by the
/// relay's country, then by tier, then by the random key: against every other candidate `j`,
/// the picked exit `i` is preferred if `j` is; in the relay's city if `j` is and both agree on
/// preference; in the relay's country if `j` is and both agree on preference and city; of at
/// least `j`'s tier if both agree on all three; and of at least `j`'s key if they agree on the
/// tier too.
pub proof fn lemma_pick_ranks_lexicographically(
    m: SelectionModel,
    selector: ExitSelector,
    exits: Seq<OneExit>,
    relay: OneRelay,
    keys: Seq<u32>,
    i: int,
    j: int,
)
    requires
        is_pick(m, selector, exits, relay, keys, i),
        is_candidate(m, selector, exits, j),
    ensures
        is_preferred(relay, exits[j].id@) ==> is_preferred(relay, exits[i].id@),
        is_preferred(relay, exits[j].id@) == is_preferred(relay, exits[i].id@) && in_relay_city(exits[j], relay)
            ==> in_relay_city(exits[i], relay),
        is_preferred(relay, exits[j].id@) == is_preferred(relay, exits[i].id@) && in_relay_city(exits[j], relay)
            == in_relay_city(exits[i], relay) && in_relay_country(exits[j], relay) ==> in_relay_country(
            exits[i],
            relay,
        ),
        is_preferred(relay, exits[j].id@) == is_preferred(relay, exits[i].id@) && in_relay_city(exits[j], relay)
            == in_relay_city(exits[i], relay) && in_relay_country(exits[j], relay) == in_relay_country(
            exits[i],
            relay,
        ) ==> exits[j].tier <= exits[i].tier,
        is_preferred(relay, exits[j].id@) == is_preferred(relay, exits[i].id@) && in_relay_city(exits[j], relay)
            == in_relay_city(exits[i], relay) && in_relay_country(exits[j], relay) == in_relay_country(
            exits[i],
            relay,
        ) && exits[j].tier == exits[i].tier ==> keys[j] <= keys[i],
{
    assert(rank_spec(exits[j], relay, keys[j]) <= rank_spec(exits[i], relay, keys[i]));
    let ci = city_key(relay.city_code) == city_key(exits[i].city_code);
    let cj = city_key(relay.city_code) == city_key(exits[j].city_code);
    assert(ci == in_relay_city(exits[i], relay));
    assert(cj == in_relay_city(exits[j], relay));
}

/// A candidate in the relay's city always wins over one elsewhere that agrees with it on the
/// relay's preference, the country, the tier and the key: the pick is then in the relay's city.
pub proof fn lemma_pick_prefers_relay_city(
    m: SelectionModel,
    selector: ExitSelector,
    exits: Seq<OneExit>,
    relay: OneRelay,
    keys: Seq<u32>,
    i: int,
    j: int,
)
    requires
        is_pick(m, selector, exits, relay, keys, i),
        is_candidate(m, selector, exits, j),
        in_relay_city(exits[j], relay),
        is_preferred(relay, exits[j].id@) == is_preferred(relay, exits[i].id@),
    ensures
        in_relay_city(exits[i], relay),
{
    lemma_pick_ranks_lexicographically(m, selector, exits, relay, keys, i, j);
}

/// The selections since the last reset, kept as lists without repeated keys.
pub struct ExitSelectionState {
    selected_exit_ids: Vec<String>,
    selected_datacenters: Vec<(u32, u8)>,
    selected_cities: Vec<(CityCode, u8)>,
    selected_countries: Vec<(CountryCode, u8)>,
}

pub open spec fn distinct_keys<K, V>(s: Seq<(K, V)>) -> bool {
    forall|i: int, j: int| 0 <= i < j < s.len() ==> s[i].0 != s[j].0
}

pub open spec fn as_map<K, V>(s: Seq<(K, V)>) -> Map<K, V> {
    Map::new(
        |k: K| exists|i: int| 0 <= i < s.len() && s[i].0 == k,
        |k: K| s[choose|i: int| 0 <= i < s.len() && s[i].0 == k].1,
    )
}

impl ExitSelectionState {
    spec fn ids(&self) -> Seq<Seq<char>> {
        self.selected_exit_ids@.map_values(|s: String| s@)
    }

    spec fn datacenters(&self) -> Seq<(u32, u8)> {
        self.selected_datacenters@
    }

    spec fn cities(&self) -> Seq<((Seq<char>, Seq<char>), u8)> {
        self.selected_cities@.map_values(|e: (CityCode, u8)| (city_key(e.0), e.1))
    }

    spec fn countries(&self) -> Seq<(Seq<char>, u8)> {
        self.selected_countries@.map_values(|e: (CountryCode, u8)| (e.0.0@, e.1))
    }

    pub closed spec fn wf(&self) -> bool {
        &&& distinct_keys(self.datacenters())
        &&& distinct_keys(self.cities())
        &&& distinct_keys(self.countries())
    }
}

impl View for ExitSelectionState {
    type V = SelectionModel;

    closed spec fn view(&self) -> SelectionModel {
        SelectionModel {
            exit_ids: self.ids().to_set(),
            datacenters: as_map(self.datacenters()),
            cities: as_map(self.cities()),
            countries: as_map(self.countries()),
        }
    }
}

/// Looking up a key in a list without repeated keys finds its map entry.
proof fn lemma_as_map_index<K, V>(s: Seq<(K, V)>, i: int)
    requires
        distinct_keys(s),
        0 <= i < s.len(),
    ensures
        as_map(s).contains_key(s[i].0),
        as_map(s)[s[i].0] == s[i].1,
{
    let k = s[i].0;
    assert(exists|j: int| 0 <= j < s.len() && s[j].0 == k);
    let c = choose|j: int| 0 <= j < s.len() && s[j].0 == k;
    assert(c == i);
}

/// Updating the count of an existing key updates the map.
proof fn lemma_as_map_update<K, V>(s: Seq<(K, V)>, i: int, v: V)
    requires
        distinct_keys(s),
        0 <= i < s.len(),
    ensures
        distinct_keys(s.update(i, (s[i].0, v))),
        as_map(s.update(i, (s[i].0, v))) == as_map(s).insert(s[i].0, v),
{
    let t = s.update(i, (s[i].0, v));
    assert forall|a: int, b: int| 0 <= a < b < t.len() implies t[a].0 != t[b].0 by {
        assert(t[a].0 == s[a].0 && t[b].0 == s[b].0);
    }
    assert forall|k: K| #[trigger] as_map(t).contains_key(k) <==> as_map(s).insert(s[i].0, v).contains_key(k) by {
        if exists|j: int| 0 <= j < t.len() && t[j].0 == k {
            let j = choose|j: int| 0 <= j < t.len() && t[j].0 == k;
            assert(s[j].0 == k);
        }
        if exists|j: int| 0 <= j < s.len() && s[j].0 == k {
            let j = choose|j: int| 0 <= j < s.len() && s[j].0 == k;
            assert(t[j].0 == k);
        }
    }
    assert forall|k: K| #[trigger] as_map(t).contains_key(k) implies as_map(t)[k] == as_map(s).insert(s[i].0, v)[k] by {
        let j = choose|j: int| 0 <= j < t.len() && t[j].0 == k;
        lemma_as_map_index(t, j);
        if j != i {
            lemma_as_map_index(s, j);
        }
    }
    assert(as_map(t) =~= as_map(s).insert(s[i].0, v));
}

/// Appending a new key adds it to the map.
proof fn lemma_as_map_push<K, V>(s: Seq<(K, V)>, k: K, v: V)
    requires
        distinct_keys(s),
        !as_map(s).contains_key(k),
    ensures
        distinct_keys(s.push((k, v))),
        as_map(s.push((k, v))) == as_map(s).insert(k, v),
{
    let t = s.push((k, v));
    assert forall|a: int, b: int| 0 <= a < b < t.len() implies t[a].0 != t[b].0 by {
        if b == s.len() {
            assert(s[a].0 != k);
        }
    }
    assert forall|x: K| #[trigger] as_map(t).contains_key(x) <==> as_map(s).insert(k, v).contains_key(x) by {
        if exists|j: int| 0 <= j < t.len() && t[j].0 == x {
            let j = choose|j: int| 0 <= j < t.len() && t[j].0 == x;
            if j < s.len() {
                assert(s[j].0 == x);
            }
        }
        if exists|j: int| 0 <= j < s.len() && s[j].0 == x {
            let j = choose|j: int| 0 <= j < s.len() && s[j].0 == x;
            assert(t[j].0 == x);
        }
        if x == k {
            assert(t[s.len() as int].0 == x);
        }
    }
    assert forall|x: K| #[trigger] as_map(t).contains_key(x) implies as_map(t)[x] == as_map(s).insert(k, v)[x] by {
        let j = choose|j: int| 0 <= j < t.len() && t[j].0 == x;
        lemma_as_map_index(t, j);
        if j < s.len() {
            lemma_as_map_index(s, j);
        }
    }
    assert(as_map(t) =~= as_map(s).insert(k, v));
}

fn copy_country(c: &CountryCode) -> (r: CountryCode)
    ensures
        r.0@ == c.0@,
{
    CountryCode(c.0.clone())
}

fn copy_city(c: &CityCode) -> (r: CityCode)
    ensures
        city_key(r) == city_key(*c),
{
    CityCode { country_code: copy_country(&c.country_code), city_code: c.city_code.clone() }
}

/// The count after one more selection, saturating.
fn increment(n: u8) -> (r: u8)
    ensures
        r == (if n < u8::MAX { (n + 1) as u8 } else { u8::MAX }),
{
    if n < u8::MAX {
        n + 1
    } else {
        u8::MAX
    }
}

impl ExitSelectionState {
    /// Nothing selected.
    pub fn new() -> (r: Self)
        ensures
            r.wf(),
            r@ == empty_selection(),
    {
        let r = ExitSelectionState {
            selected_exit_ids: Vec::new(),
            selected_datacenters: Vec::new(),
            selected_cities: Vec::new(),
            selected_countries: Vec::new(),
        };
        assert(r@.exit_ids =~= Set::<Seq<char>>::empty());
        assert(r@.datacenters =~= Map::<u32, u8>::empty());
        assert(r@.cities =~= Map::<(Seq<char>, Seq<char>), u8>::empty());
        assert(r@.countries =~= Map::<Seq<char>, u8>::empty());
        r
    }

    /// Whether the exit with id `id` was selected.
    fn contains_exit_id(&self, id: &String) -> (r: bool)
        ensures
            r == self@.exit_ids.contains(id@),
    {
        let mut i: usize = 0;
        while i < self.selected_exit_ids.len()
            invariant
                i <= self.selected_exit_ids@.len(),
                forall|j: int| 0 <= j < i ==> #[trigger] self.ids()[j] != id@,
            decreases self.selected_exit_ids@.len() - i,
        {
            if self.selected_exit_ids[i] == *id {
                assert(self.ids()[i as int] == id@);
                return true;
            }
            i = i + 1;
        }
        proof {
            if self.ids().contains(id@) {
                let j = choose|j: int| 0 <= j < self.ids().len() && self.ids()[j] == id@;
                assert(self.ids()[j] != id@);
            }
        }
        false
    }

    /// Where the datacenter `id` is counted, if it is.
    fn find_datacenter(&self, id: u32) -> (r: Option<usize>)
        requires
            self.wf(),
        ensures
            r matches Some(i) ==> i < self.datacenters().len() && self.datacenters()[i as int].0 == id,
            r is None ==> !self@.datacenters.contains_key(id),
    {
        let mut i: usize = 0;
        while i < self.selected_datacenters.len()
            invariant
                i <= self.selected_datacenters@.len(),
                forall|j: int| 0 <= j < i ==> #[trigger] self.datacenters()[j].0 != id,
            decreases self.selected_datacenters@.len() - i,
        {
            if self.selected_datacenters[i].0 == id {
                return Some(i);
            }
            i = i + 1;
        }
        proof {
            if self@.datacenters.contains_key(id) {
                let j = choose|j: int| 0 <= j < self.datacenters().len() && self.datacenters()[j].0 == id;
                assert(self.datacenters()[j].0 != id);
            }
        }
        None
    }

    /// Where the city `city` is counted, if it is.
    fn find_city(&self, city: &CityCode) -> (r: Option<usize>)
        requires
            self.wf(),
        ensures
            r matches Some(i) ==> i < self.cities().len() && self.cities()[i as int].0 == city_key(*city),
            r is None ==> !self@.cities.contains_key(city_key(*city)),
    {
        let mut i: usize = 0;
        while i < self.selected_cities.len()
            invariant
                i <= self.selected_cities@.len(),
                forall|j: int| 0 <= j < i ==> #[trigger] self.cities()[j].0 != city_key(*city),
            decreases self.selected_cities@.len() - i,
        {
            let entry = &self.selected_cities[i].0;
            if entry.country_code.0 == city.country_code.0 && entry.city_code == city.city_code {
                assert(self.cities()[i as int].0 == city_key(*city));
                return Some(i);
            }
            assert(self.cities()[i as int].0 == city_key(self.selected_cities@[i as int].0));
            i = i + 1;
        }
        proof {
            if self@.cities.contains_key(city_key(*city)) {
                let j = choose|j: int| 0 <= j < self.cities().len() && self.cities()[j].0 == city_key(*city);
                assert(self.cities()[j].0 != city_key(*city));
            }
        }
        None
    }

    /// Where the country `country` is counted, if it is.
    fn find_country(&self, country: &CountryCode) -> (r: Option<usize>)
        requires
            self.wf(),
        ensures
            r matches Some(i) ==> i < self.countries().len() && self.countries()[i as int].0 == country.0@,
            r is None ==> !self@.countries.contains_key(country.0@),
    {
        let mut i: usize = 0;
        while i < self.selected_countries.len()
            invariant
                i <= self.selected_countries@.len(),
                forall|j: int| 0 <= j < i ==> #[trigger] self.countries()[j].0 != country.0@,
            decreases self.selected_countries@.len() - i,
        {
            if self.selected_countries[i].0.0 == country.0 {
                assert(self.countries()[i as int].0 == country.0@);
                return Some(i);
            }
            assert(self.countries()[i as int].0 == self.selected_countries@[i as int].0.0@);
            i = i + 1;
        }
        proof {
            if self@.countries.contains_key(country.0@) {
                let j = choose|j: int| 0 <= j < self.countries().len() && self.countries()[j].0 == country.0@;
                assert(self.countries()[j].0 != country.0@);
            }
        }
        None
    }

    /// Whether `candidate` is left out of the next selection.
    fn exclude(&self, candidate: &OneExit) -> (r: bool)
        requires
            self.wf(),
        ensures
            r == excluded_spec(self@, *candidate),
    {
        if self.contains_exit_id(&candidate.id) {
            return true;
        }
        match self.find_datacenter(candidate.datacenter_id) {
            Some(i) => {
                proof {
                    lemma_as_map_index(self.datacenters(), i as int);
                }
                if self.selected_datacenters[i].1 >= MAX_DATACENTER_SELECTIONS {
                    return true;
                }
            },
            None => {},
        }
        match self.find_city(&candidate.city_code) {
            Some(i) => {
                proof {
                    lemma_as_map_index(self.cities(), i as int);
                }
                if self.selected_cities[i].1 >= MAX_CITY_SELECTIONS {
                    return true;
                }
            },
            None => {},
        }
        match self.find_country(&candidate.city_code.country_code) {
            Some(i) => {
                proof {
                    lemma_as_map_index(self.countries(), i as int);
                }
                if self.selected_countries[i].1 >= MAX_COUNTRY_SELECTIONS {
                    return true;
                }
            },
            None => {},
        }
        false
    }

    /// Records the selection of `exit`.
    fn record(&mut self, exit: &OneExit)
        requires
            old(self).wf(),
        ensures
            final(self).wf(),
            final(self)@ == record_selection(old(self)@, *exit),
    {
        let ghost ids_before = self.ids();
        self.selected_exit_ids.push(exit.id.clone());
        proof {
            assert(self.ids() =~= ids_before.push(exit.id@));
            assert forall|x: Seq<char>| #[trigger] self.ids().to_set().contains(x) <==> ids_before.to_set().insert(
                exit.id@,
            ).contains(x) by {
                if ids_before.contains(x) {
                    let j = choose|j: int| 0 <= j < ids_before.len() && ids_before[j] == x;
                    assert(self.ids()[j] == x);
                }
                if x == exit.id@ {
                    assert(self.ids()[ids_before.len() as int] == x);
                }
                if self.ids().contains(x) {
                    let j = choose|j: int| 0 <= j < self.ids().len() && self.ids()[j] == x;
                    if j < ids_before.len() {
                        assert(ids_before[j] == x);
                    }
                }
            }
            assert(self.ids().to_set() =~= ids_before.to_set().insert(exit.id@));
        }
        let ghost dcs = self.datacenters();
        match self.find_datacenter(exit.datacenter_id) {
            Some(i) => {
                let n = increment(self.selected_datacenters[i].1);
                self.selected_datacenters.set(i, (exit.datacenter_id, n));
                proof {
                    lemma_as_map_index(dcs, i as int);
                    lemma_as_map_update(dcs, i as int, n);
                    assert(self.datacenters() =~= dcs.update(i as int, (dcs[i as int].0, n)));
                }
            },
            None => {
                self.selected_datacenters.push((exit.datacenter_id, 1));
                proof {
                    lemma_as_map_push(dcs, exit.datacenter_id, 1);
                }
            },
        }
        let ghost cities = self.cities();
        match self.find_city(&exit.city_code) {
            Some(i) => {
                let n = increment(self.selected_cities[i].1);
                self.selected_cities.set(i, (copy_city(&exit.city_code), n));
                proof {
                    lemma_as_map_index(cities, i as int);
                    lemma_as_map_update(cities, i as int, n);
                    assert(self.cities() =~= cities.update(i as int, (cities[i as int].0, n)));
                }
            },
            None => {
                self.selected_cities.push((copy_city(&exit.city_code), 1));
                proof {
                    lemma_as_map_push(cities, city_key(exit.city_code), 1);
                    assert(self.cities() =~= cities.push((city_key(exit.city_code), 1)));
                }
            },
        }
        let ghost countries = self.countries();
        match self.find_country(&exit.city_code.country_code) {
            Some(i) => {
                let n = increment(self.selected_countries[i].1);
                self.selected_countries.set(i, (copy_country(&exit.city_code.country_code), n));
                proof {
                    lemma_as_map_index(countries, i as int);
                    lemma_as_map_update(countries, i as int, n);
                    assert(self.countries() =~= countries.update(i as int, (countries[i as int].0, n)));
                }
            },
            None => {
                self.selected_countries.push((copy_country(&exit.city_code.country_code), 1));
                proof {
                    lemma_as_map_push(countries, exit.city_code.country_code.0@, 1);
                    assert(self.countries() =~= countries.push((exit.city_code.country_code.0@, 1)));
                }
            },
        }
    }
}

/// `count` random keys from `rand::random`. Only the count is stated: the keys are random.
#[verifier::external_body]
fn random_keys(count: usize) -> (r: Vec<u32>)
    ensures
        r@.len() == count,
{
    (0..count).map(|_| rand::random::<u32>()).collect()
}

/// Whether `relay` prefers the exit with id `id`.
fn relay_prefers(relay: &OneRelay, id: &String) -> (r: bool)
    ensures
        r == is_preferred(*relay, id@),
{
    let mut k: usize = 0;
    while k < relay.preferred_exits.len()
        invariant
            k <= relay.preferred_exits@.len(),
            forall|j: int| 0 <= j < k ==> #[trigger] relay.preferred_exits@[j].id@ != id@,
        decreases relay.preferred_exits@.len() - k,
    {
        if relay.preferred_exits[k].id == *id {
            return true;
        }
        k = k + 1;
    }
    false
}

fn flag_value(b: bool) -> (r: u64)
    ensures
        r == flag(b),
{
    if b {
        1
    } else {
        0
    }
}

impl ExitSelectionState {
    /// The rank of `candidate` for `relay`, with the random tie-breaker `key`.
    fn rank(candidate: &OneExit, relay: &OneRelay, key: u32) -> (r: u64)
        ensures
            r == rank_spec(*candidate, *relay, key),
    {
        let is_preferred = relay_prefers(relay, &candidate.id);
        let same_country = relay.city_code.country_code.0 == candidate.city_code.country_code.0;
        let same_city = same_country && relay.city_code.city_code == candidate.city_code.city_code;
        flag_value(is_preferred) * 0x400_0000_0000 + flag_value(same_city) * 0x200_0000_0000 + flag_value(
            same_country,
        ) * 0x100_0000_0000 + (candidate.tier as u64) * 0x1_0000_0000 + key as u64
    }

    /// Selects the next exit, with `keys[i]` as the random tie-breaker of `exits[i]`: among the
    /// exits that `selector` asks for and that are not left out, the last one of the highest
    /// rank, which is then recorded. Without such an exit, forgets all selections and returns
    /// `None`.
    pub fn select_next_exit_with_keys(
        &mut self,
        selector: &ExitSelector,
        exits: &[OneExit],
        relay: &OneRelay,
        keys: &[u32],
    ) -> (r: Option<usize>)
        requires
            old(self).wf(),
            keys@.len() == exits@.len(),
        ensures
            final(self).wf(),
            match r {
                Some(i) => is_pick(old(self)@, *selector, exits@, *relay, keys@, i as int) && final(self)@
                    == record_selection(old(self)@, exits@[i as int]),
                None => (forall|j: int| !#[trigger] is_candidate(old(self)@, *selector, exits@, j))
                    && final(self)@ == empty_selection(),
            },
    {
        let ghost m = self@;
        let mut best: Option<(usize, u64)> = None;
        let mut i: usize = 0;
        while i < exits.len()
            invariant
                i <= exits@.len() == keys@.len(),
                self.wf(),
                self@ == m,
                match best {
                    None => forall|j: int| 0 <= j < i ==> !#[trigger] is_candidate(m, *selector, exits@, j),
                    Some((b, rb)) => {
                        &&& b < i
                        &&& is_candidate(m, *selector, exits@, b as int)
                        &&& rb == rank_spec(exits@[b as int], *relay, keys@[b as int])
                        &&& forall|j: int|
                            0 <= j < i && #[trigger] is_candidate(m, *selector, exits@, j) ==> rank_spec(
                                exits@[j],
                                *relay,
                                keys@[j],
                            ) <= rb
                        &&& forall|j: int|
                            b < j < i && #[trigger] is_candidate(m, *selector, exits@, j) ==> rank_spec(
                                exits@[j],
                                *relay,
                                keys@[j],
                            ) < rb
                    },
                },
            decreases exits@.len() - i,
        {
            let candidate = &exits[i];
            if selector.matches(candidate) && !self.exclude(candidate) {
                let r = Self::rank(candidate, relay, keys[i]);
                match best {
                    None => {
                        best = Some((i, r));
                    },
                    Some((_, rb)) => {
                        if r >= rb {
                            best = Some((i, r));
                        }
                    },
                }
            }
            i = i + 1;
        }
        match best {
            Some((b, _)) => {
                self.record(&exits[b]);
                Some(b)
            },
            None => {
                proof {
                    assert forall|j: int| !#[trigger] is_candidate(m, *selector, exits@, j) by {
                        if 0 <= j < exits@.len() {
                            assert(!is_candidate(m, *selector, exits@, j));
                        }
                    }
                }
                *self = ExitSelectionState::new();
                None
            },
        }
    }

    /// Selects the next exit for a connection through `relay`: among the exits that `selector`
    /// asks for and that are not left out, one of the highest rank, ties broken at random. The
    /// selection is recorded, so that repeated attempts spread over exits, datacenters, cities and
    /// countries. Without such an exit, forgets all selections and returns `None`.
    pub fn select_next_exit<'a>(&mut self, selector: &ExitSelector, exits: &'a [OneExit], relay: &OneRelay) -> (r:
        Option<&'a OneExit>)
        requires
            old(self).wf(),
        ensures
            final(self).wf(),
            match r {
                Some(e) => exists|i: int, keys: Seq<u32>|
                    #![trigger is_pick(old(self)@, *selector, exits@, *relay, keys, i)]
                    keys.len() == exits@.len() && is_pick(old(self)@, *selector, exits@, *relay, keys, i)
                        && *e == exits@[i] && final(self)@ == record_selection(old(self)@, exits@[i]),
                None => (forall|j: int| !#[trigger] is_candidate(old(self)@, *selector, exits@, j))
                    && final(self)@ == empty_selection(),
            },
    {
        let keys = random_keys(exits.len());
        match self.select_next_exit_with_keys(selector, exits, relay, keys.as_slice()) {
            Some(i) => Some(&exits[i]),
            None => None,
        }
    }
}

impl Default for ExitSelectionState {
    fn default() -> (r: Self)
        ensures
            r.wf(),
            r@ == empty_selection(),
    {
        ExitSelectionState::new()
    }
}

/// An exit that was selected is left out of the selections that follow, until they are reset.
pub proof fn lemma_selected_exit_left_out(m: SelectionModel, exit: OneExit)
    ensures
        excluded_spec(record_selection(m, exit), exit),
{
    assert(record_selection(m, exit).exit_ids.contains(exit.id@));
}

/// Selections only add up: what was left out before a selection stays left out after it.
pub proof fn lemma_exclusion_persists(m: SelectionModel, selected: OneExit, other: OneExit)
    requires
        excluded_spec(m, other),
    ensures
        excluded_spec(record_selection(m, selected), other),
{
    let n = record_selection(m, selected);
    if reached(m.datacenters, other.datacenter_id, MAX_DATACENTER_SELECTIONS) {
        assert(reached(n.datacenters, other.datacenter_id, MAX_DATACENTER_SELECTIONS));
    }
    if reached(m.cities, city_key(other.city_code), MAX_CITY_SELECTIONS) {
        assert(reached(n.cities, city_key(other.city_code), MAX_CITY_SELECTIONS));
    }
    if reached(m.countries, other.city_code.country_code.0@, MAX_COUNTRY_SELECTIONS) {
        assert(reached(n.countries, other.city_code.country_code.0@, MAX_COUNTRY_SELECTIONS));
    }
}

impl OneExit {
    /// A copy of this exit.
    pub fn copy(&self) -> (r: OneExit)
        ensures
            r == *self,
    {
        OneExit {
            id: self.id.clone(),
            city_code: CityCode {
                country_code: CountryCode(self.city_code.country_code.0.clone()),
                city_code: self.city_code.city_code.clone(),
            },
            datacenter_id: self.datacenter_id,
            tier: self.tier,
            city_name: self.city_name.clone(),
            provider_name: self.provider_name.clone(),
        }
    }
}

impl OneRelay {
    /// A copy of this relay.
    pub fn copy(&self) -> (r: OneRelay)
        ensures
            r.id == self.id,
            r.city_code == self.city_code,
            r.preferred_exits@ == self.preferred_exits@,
    {
        let mut preferred_exits: Vec<RelayPreferredExit> = Vec::new();
        let mut i: usize = 0;
        while i < self.preferred_exits.len()
            invariant
                i <= self.preferred_exits@.len(),
                preferred_exits@ == self.preferred_exits@.subrange(0, i as int),
            decreases self.preferred_exits@.len() - i,
        {
            preferred_exits.push(RelayPreferredExit { id: self.preferred_exits[i].id.clone() });
            i = i + 1;
            assert(preferred_exits@ =~= self.preferred_exits@.subrange(0, i as int));
        }
        assert(self.preferred_exits@.subrange(0, i as int) =~= self.preferred_exits@);
        OneRelay {
            id: self.id.clone(),
            city_code: CityCode {
                country_code: CountryCode(self.city_code.country_code.0.clone()),
                city_code: self.city_code.city_code.clone(),
            },
            preferred_exits,
        }
    }
}

} // verus!
