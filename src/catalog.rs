use crate::models::{Coffee, CoffeeView};
use vstd::prelude::*;

verus! {

/// One named entry of the catalog: the display name that a form selects, and its coffee.
pub struct CatalogEntry {
    pub key: String,
    pub coffee: Coffee,
}

/// The lookup table of known coffees, kept in insertion order with distinct keys.
pub struct Catalog {
    entries: Vec<CatalogEntry>,
}

/// The coffee that the first entry with the given key holds, if any.
pub open spec fn lookup_in(entries: Seq<(Seq<char>, CoffeeView)>, key: Seq<char>) -> Option<CoffeeView>
    decreases entries.len(),
{
    if entries.len() == 0 {
        None
    } else if entries[0].0 == key {
        Some(entries[0].1)
    } else {
        lookup_in(entries.drop_first(), key)
    }
}

/// No key occurs twice.
pub open spec fn keys_distinct(entries: Seq<(Seq<char>, CoffeeView)>) -> bool {
    forall|i: int, j: int|
        0 <= i < j < entries.len() ==> #[trigger] entries[i].0 != #[trigger] entries[j].0
}

pub open spec fn ocean_grind() -> CoffeeView {
    CoffeeView {
        name: "Single origin"@,
        roastery: "Ocean Grind"@,
        roast_date: "2024-01-01"@,
        roast_level: "Medium"@,
        origin: "Guatemala"@,
        region: "El Boqueron, Santa Rosa"@,
        farm: "Unknown"@,
        altitude: 0,
        variety: "Unknown"@,
        processing_method: "Natural"@,
        tasting_notes: "Red wine, cooked orange, hazelnut, chocolate"@,
        nickname: "Ocean Grind - Single origin"@,
    }
}

pub open spec fn seven_seeds() -> CoffeeView {
    CoffeeView {
        name: "Habtamu Fekadu"@,
        roastery: "Seven Seeds"@,
        roast_date: "2023-12-23"@,
        roast_level: "Light"@,
        origin: "Ethiopia"@,
        region: "Chelbessa"@,
        farm: "Worka Chelbessa local farmers"@,
        altitude: 21865,
        variety: "74110,74112"@,
        processing_method: "Fully Washed"@,
        tasting_notes: "Peach, Limonata, Apricot"@,
        nickname: "Seven Seeds - Habtamu Fekadu"@,
    }
}

pub open spec fn inglewood() -> CoffeeView {
    CoffeeView {
        name: "Hambela"@,
        roastery: "Inglewood Coffee Roasters"@,
        roast_date: "2024-02-06"@,
        roast_level: "Light"@,
        origin: "Ethiopia"@,
        region: "Guji, Benti Neka"@,
        farm: ""@,
        altitude: 17250,
        variety: "Hambela"@,
        processing_method: "Washed"@,
        tasting_notes: "Chamomile, tangerine, toffee, honey"@,
        nickname: "Inglewood - Hambela"@,
    }
}

/// The keys of the standard catalog, in the order the form offers them.
pub open spec fn standard_keys() -> Seq<Seq<char>> {
    seq!["Ocean Grind"@, "Seven Seeds"@, "Inglewood"@]
}

/// The standard catalog as a list of (key, coffee) pairs.
pub open spec fn standard_entries() -> Seq<(Seq<char>, CoffeeView)> {
    seq![
        ("Ocean Grind"@, ocean_grind()),
        ("Seven Seeds"@, seven_seeds()),
        ("Inglewood"@, inglewood()),
    ]
}

impl Catalog {
    pub closed spec fn entries_view(&self) -> Seq<(Seq<char>, CoffeeView)> {
        self.entries@.map_values(|e: CatalogEntry| (e.key@, e.coffee@))
    }

    /// The coffee stored under `key`.
    pub open spec fn lookup(&self, key: Seq<char>) -> Option<CoffeeView> {
        lookup_in(self.entries_view(), key)
    }

    pub open spec fn wf(&self) -> bool {
        keys_distinct(self.entries_view())
    }

    /// The number of coffees in the catalog.
    pub fn len(&self) -> (r: usize)
        ensures
            r == self.entries_view().len(),
    {
        self.entries.len()
    }

    /// The key of the entry at position `i`, in insertion order.
    pub fn key_at(&self, i: usize) -> (r: String)
        requires
            i < self.entries_view().len(),
        ensures
            r@ == self.entries_view()[i as int].0,
    {
        self.entries[i].key.clone()
    }

    /// Looks up the coffee stored under `key`, copying it out.
    pub fn get(&self, key: &String) -> (r: Option<Coffee>)
        ensures
            match r {
                Some(c) => self.lookup(key@) == Some(c@),
                None => self.lookup(key@).is_none(),
            },
    {
        let ghost all = self.entries_view();
        assert(all.subrange(0, all.len() as int) =~= all);
        let mut i: usize = 0;
        while i < self.entries.len()
            invariant
                i <= self.entries@.len(),
                all == self.entries_view(),
                lookup_in(all, key@) == lookup_in(all.subrange(i as int, all.len() as int), key@),
            decreases self.entries@.len() - i,
        {
            let ghost rest = all.subrange(i as int, all.len() as int);
            assert(rest.drop_first() =~= all.subrange(i + 1, all.len() as int));
            if self.entries[i].key == *key {
                return Some(self.entries[i].coffee.duplicate());
            }
            i = i + 1;
        }
        assert(all.subrange(i as int, all.len() as int).len() == 0);
        None
    }
}

fn make_coffee(
    name: &str,
    roastery: &str,
    roast_date: &str,
    roast_level: &str,
    origin: &str,
    region: &str,
    farm: &str,
    altitude: u32,
    variety: &str,
    processing_method: &str,
    tasting_notes: &str,
    nickname: &str,
) -> (r: Coffee)
    ensures
        r@ == (CoffeeView {
            name: name@,
            roastery: roastery@,
            roast_date: roast_date@,
            roast_level: roast_level@,
            origin: origin@,
            region: region@,
            farm: farm@,
            altitude,
            variety: variety@,
            processing_method: processing_method@,
            tasting_notes: tasting_notes@,
            nickname: nickname@,
        }),
{
    Coffee {
        name: name.to_owned(),
        roastery: roastery.to_owned(),
        roast_date: roast_date.to_owned(),
        roast_level: roast_level.to_owned(),
        origin: origin.to_owned(),
        region: region.to_owned(),
        farm: farm.to_owned(),
        altitude,
        variety: variety.to_owned(),
        processing_method: processing_method.to_owned(),
        tasting_notes: tasting_notes.to_owned(),
        nickname: nickname.to_owned(),
    }
}

/// The catalog of the coffees that the review form offers.
pub fn coffee_catalog() -> (r: Catalog)
    ensures
        r.wf(),
        r.entries_view() == standard_entries(),
{
    let mut entries: Vec<CatalogEntry> = Vec::new();
    entries.push(CatalogEntry {
        key: "Ocean Grind".to_owned(),
        coffee: make_coffee(
            "Single origin",
            "Ocean Grind",
            "2024-01-01",
            "Medium",
            "Guatemala",
            "El Boqueron, Santa Rosa",
            "Unknown",
            0,
            "Unknown",
            "Natural",
            "Red wine, cooked orange, hazelnut, chocolate",
            "Ocean Grind - Single origin",
        ),
    });
    entries.push(CatalogEntry {
        key: "Seven Seeds".to_owned(),
        coffee: make_coffee(
            "Habtamu Fekadu",
            "Seven Seeds",
            "2023-12-23",
            "Light",
            "Ethiopia",
            "Chelbessa",
            "Worka Chelbessa local farmers",
            21865,
            "74110,74112",
            "Fully Washed",
            "Peach, Limonata, Apricot",
            "Seven Seeds - Habtamu Fekadu",
        ),
    });
    entries.push(CatalogEntry {
        key: "Inglewood".to_owned(),
        coffee: make_coffee(
            "Hambela",
            "Inglewood Coffee Roasters",
            "2024-02-06",
            "Light",
            "Ethiopia",
            "Guji, Benti Neka",
            "",
            17250,
            "Hambela",
            "Washed",
            "Chamomile, tangerine, toffee, honey",
            "Inglewood - Hambela",
        ),
    });
    let r = Catalog { entries };
    proof {
        reveal_strlit("Ocean Grind");
        reveal_strlit("Seven Seeds");
        reveal_strlit("Inglewood");
        assert(r.entries_view() =~= standard_entries());
        let k = standard_keys();
        assert(k[0][0] != k[1][0] && k[0][0] != k[2][0] && k[1][0] != k[2][0]);
        assert(keys_distinct(standard_entries()));
    }
    r
}

} // verus!
