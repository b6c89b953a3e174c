use vstd::prelude::*;

verus! {

/// One inventory record: an identifier, a label, a quantity and a unit price.
#[derive(Clone, Debug)]
pub struct Flower {
    pub id: String,
    pub name: String,
    pub amount: i32,
    pub price: i32,
}

/// The mathematical content of a `Flower`.
pub ghost struct FlowerView {
    pub id: Seq<char>,
    pub name: Seq<char>,
    pub amount: i32,
    pub price: i32,
}

impl View for Flower {
    type V = FlowerView;

    open spec fn view(&self) -> FlowerView {
        FlowerView { id: self.id@, name: self.name@, amount: self.amount, price: self.price }
    }
}

impl Flower {
    /// A field-for-field copy of this record.
    pub fn copy_record(&self) -> (r: Flower)
        ensures
            r@ == self@,
    {
        Flower {
            id: self.id.clone(),
            name: self.name.clone(),
            amount: self.amount,
            price: self.price,
        }
    }
}

impl PartialEq for Flower {
    fn eq(&self, o: &Flower) -> (r: bool) {
        self.id == o.id && self.name == o.name && self.amount == o.amount && self.price == o.price
    }
}

impl vstd::std_specs::cmp::PartialEqSpecImpl for Flower {
    open spec fn obeys_eq_spec() -> bool {
        true
    }

    open spec fn eq_spec(&self, o: &Flower) -> bool {
        self@ == o@
    }
}

/// The view of an optional record.
pub open spec fn option_view(f: Option<Flower>) -> Option<FlowerView> {
    match f {
        Some(r) => Some(r@),
        None => None,
    }
}

/// The record store: at most one record per identifier, addressed by that identifier.
/// Its view maps each identifier to the record stored under it.
pub struct FlowerStore {
    records: Vec<Flower>,
    model: Ghost<Map<Seq<char>, FlowerView>>,
}

impl View for FlowerStore {
    type V = Map<Seq<char>, FlowerView>;

    closed spec fn view(&self) -> Map<Seq<char>, FlowerView> {
        self.model@
    }
}

impl FlowerStore {
    /// The records held are exactly the entries of the view, one per identifier.
    pub closed spec fn wf(&self) -> bool {
        &&& forall|i: int|
            #![trigger self.records@[i]]
            0 <= i < self.records@.len() ==> self.model@.contains_key(self.records@[i]@.id)
                && self.model@[self.records@[i]@.id] == self.records@[i]@
        &&& forall|k: Seq<char>|
            #![trigger self.model@.contains_key(k)]
            self.model@.contains_key(k) ==> exists|i: int|
                0 <= i < self.records@.len() && #[trigger] self.records@[i]@.id == k
        &&& forall|i: int, j: int|
            0 <= i < self.records@.len() && 0 <= j < self.records@.len()
                && #[trigger] self.records@[i]@.id == #[trigger] self.records@[j]@.id ==> i == j
    }

    /// An empty store.
    pub fn new() -> (r: FlowerStore)
        ensures
            r.wf(),
            r@ == Map::<Seq<char>, FlowerView>::empty(),
    {
        FlowerStore { records: Vec::new(), model: Ghost(Map::empty()) }
    }

    /// The number of records held.
    pub fn len(&self) -> (r: usize)
        requires
            self.wf(),
        ensures
            r as nat == self@.dom().len(),
    {
        proof { self.lemma_len(); }
        self.records.len()
    }

    proof fn lemma_len(&self)
        requires
            self.wf(),
        ensures
            self.records@.len() == self@.dom().len(),
        decreases self.records@.len(),
    {
        let ids = self.records@.map_values(|f: Flower| f@.id);
        assert forall|k: Seq<char>| #[trigger] self@.dom().contains(k) <==> ids.to_set().contains(k) by {
            if self@.dom().contains(k) {
                assert(self.model@.contains_key(k));
                let i = choose|i: int| 0 <= i < self.records@.len() && #[trigger] self.records@[i]@.id == k;
                assert(ids[i] == k);
            }
            if ids.to_set().contains(k) {
                assert(ids.contains(k));
                let i = choose|i: int| 0 <= i < ids.len() && ids[i] == k;
                assert(self.records@[i]@.id == k);
            }
        }
        assert(self@.dom() =~= ids.to_set());
        assert(ids.no_duplicates()) by {
            assert forall|i: int, j: int|
                0 <= i < ids.len() && 0 <= j < ids.len() && i != j implies ids[i] != ids[j] by {
                assert(self.records@[i]@.id == ids[i]);
                assert(self.records@[j]@.id == ids[j]);
            }
        }
        ids.unique_seq_to_set();
    }

    /// The position of the record stored under `id`, if any.
    fn position(&self, id: &String) -> (r: Option<usize>)
        requires
            self.wf(),
        ensures
            match r {
                Some(i) => i < self.records@.len() && self.records@[i as int]@.id == id@,
                None => !self@.contains_key(id@),
            },
    {
        let mut i: usize = 0;
        while i < self.records.len()
            invariant
                self.wf(),
                i <= self.records@.len(),
                forall|j: int| 0 <= j < i ==> #[trigger] self.records@[j]@.id != id@,
            decreases self.records@.len() - i,
        {
            if self.records[i].id == *id {
                return Some(i);
            }
            i += 1;
        }
        None
    }

    /// The record stored under `id`, if any.
    pub fn get(&self, id: &String) -> (r: Option<Flower>)
        requires
            self.wf(),
        ensures
            option_view(r) == (if self@.contains_key(id@) {
                Some(self@[id@])
            } else {
                None
            }),
            r matches Some(f) ==> f@.id == id@,
    {
        match self.position(id) {
            Some(i) => Some(self.records[i].copy_record()),
            None => None,
        }
    }

    /// Stores `flower` under its identifier, replacing any record held there.
    pub fn put(&mut self, flower: Flower)
        requires
            old(self).wf(),
        ensures
            final(self).wf(),
            final(self)@ == old(self)@.insert(flower@.id, flower@),
    {
        let ghost fv = flower@;
        match self.position(&flower.id) {
            Some(i) => {
                self.records.set(i, flower);
                self.model = Ghost(self.model@.insert(fv.id, fv));
                assert forall|k: Seq<char>| #[trigger] self.model@.contains_key(k) implies exists|j: int|
                    0 <= j < self.records@.len() && #[trigger] self.records@[j]@.id == k by {
                    if k != fv.id {
                        let j = choose|j: int|
                            0 <= j < old(self).records@.len() && #[trigger] old(self).records@[j]@.id == k;
                        assert(self.records@[j]@.id == k);
                    } else {
                        assert(self.records@[i as int]@.id == k);
                    }
                }
            },
            None => {
                self.records.push(flower);
                self.model = Ghost(self.model@.insert(fv.id, fv));
                let ghost n: int = self.records@.len() - 1;
                assert forall|k: Seq<char>| #[trigger] self.model@.contains_key(k) implies exists|j: int|
                    0 <= j < self.records@.len() && #[trigger] self.records@[j]@.id == k by {
                    if k != fv.id {
                        let j = choose|j: int|
                            0 <= j < old(self).records@.len() && #[trigger] old(self).records@[j]@.id == k;
                        assert(self.records@[j]@.id == k);
                    } else {
                        assert(self.records@[n]@.id == k);
                    }
                }
                assert forall|a: int| 0 <= a < n implies #[trigger] self.records@[a]@.id != fv.id by {
                    assert(old(self).records@[a] == self.records@[a]);
                }
            },
        }
    }
}

} // verus!
