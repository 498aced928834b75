//! The name-indexed catalog of personality records and its queries.

use crate::json::parse_document;
use crate::json::parse_personalities;
use crate::records::{Personality, RecordModel};
use vstd::prelude::*;

verus! {

broadcast use vstd::set::group_set_axioms;

/// Why a load failed: the source could not be read, or its content is not a
/// valid personality document.
#[derive(Debug, Clone, Copy, PartialEq, Eq, Structural)]
pub enum LoadError {
    IoError,
    ParseError,
}

/// The name-keyed mapping over a record sequence: each record stands under
/// its own `name`, and of two records sharing a name the later one wins.
pub open spec fn index_of_records(rs: Seq<RecordModel>) -> Map<Seq<char>, RecordModel>
    decreases rs.len(),
{
    if rs.len() == 0 {
        Map::empty()
    } else {
        index_of_records(rs.drop_last()).insert(rs.last().name, rs.last())
    }
}

/// The names occurring in a record sequence.
pub open spec fn name_set(rs: Seq<RecordModel>) -> Set<Seq<char>> {
    Set::new(|n: Seq<char>| exists|k: int| 0 <= k < rs.len() && rs[k].name == n)
}

/// Pairwise distinct record names.
pub open spec fn distinct_names(rs: Seq<RecordModel>) -> bool {
    forall|i: int, j: int| 0 <= i < j < rs.len() ==> rs[i].name != rs[j].name
}

/// A name is a key of the mapping exactly when some record carries it.
pub proof fn lemma_index_domain(rs: Seq<RecordModel>, n: Seq<char>)
    ensures
        index_of_records(rs).contains_key(n) <==> exists|k: int|
            0 <= k < rs.len() && rs[k].name == n,
    decreases rs.len(),
{
    if rs.len() > 0 {
        lemma_index_domain(rs.drop_last(), n);
        if rs.last().name == n {
            assert(rs[rs.len() - 1].name == n);
        } else if index_of_records(rs).contains_key(n) {
            let k = choose|k: int| 0 <= k < rs.drop_last().len() && rs.drop_last()[k].name == n;
            assert(rs[k].name == n);
        } else if exists|k: int| 0 <= k < rs.len() && rs[k].name == n {
            let k = choose|k: int| 0 <= k < rs.len() && rs[k].name == n;
            assert(rs.drop_last()[k].name == n);
        }
    }
}

/// The key set of the mapping is exactly the set of names in the sequence.
pub proof fn lemma_index_keys(rs: Seq<RecordModel>)
    ensures
        index_of_records(rs).dom() =~= name_set(rs),
{
    assert forall|n: Seq<char>|
        index_of_records(rs).dom().contains(n) == name_set(rs).contains(n) by {
        lemma_index_domain(rs, n);
    }
}

/// The mapping sends a name to the last record carrying it.
pub proof fn lemma_index_last_wins(rs: Seq<RecordModel>, k: int)
    requires
        0 <= k < rs.len(),
        forall|j: int| k < j < rs.len() ==> rs[j].name != rs[k].name,
    ensures
        index_of_records(rs).contains_key(rs[k].name),
        index_of_records(rs)[rs[k].name] == rs[k],
    decreases rs.len(),
{
    if k == rs.len() - 1 {
        assert(rs.last() == rs[k]);
    } else {
        assert(rs.last().name != rs[k].name);
        assert(rs.drop_last()[k] == rs[k]);
        lemma_index_last_wins(rs.drop_last(), k);
    }
}

/// With pairwise distinct names the mapping holds one entry per record.
pub proof fn lemma_index_len(rs: Seq<RecordModel>)
    requires
        distinct_names(rs),
    ensures
        index_of_records(rs).dom().finite(),
        index_of_records(rs).dom().len() == rs.len(),
    decreases rs.len(),
{
    if rs.len() == 0 {
        assert(index_of_records(rs).dom() =~= Set::<Seq<char>>::empty());
    } else {
        let prefix = rs.drop_last();
        assert(forall|i: int| 0 <= i < prefix.len() ==> prefix[i] == rs[i]);
        lemma_index_len(prefix);
        lemma_index_domain(prefix, rs.last().name);
        assert(index_of_records(rs).dom() =~= index_of_records(prefix).dom().insert(
            rs.last().name,
        ));
        assert(!index_of_records(prefix).dom().contains(rs.last().name));
    }
}

/// Replacing the record at `idx` by one of the same name binds that name to
/// the new record and touches nothing else.
proof fn lemma_index_update(rs: Seq<RecordModel>, idx: int, r: RecordModel)
    requires
        0 <= idx < rs.len(),
        rs[idx].name == r.name,
        distinct_names(rs),
    ensures
        index_of_records(rs.update(idx, r)) == index_of_records(rs).insert(r.name, r),
    decreases rs.len(),
{
    let rs2 = rs.update(idx, r);
    if idx == rs.len() - 1 {
        assert(rs2.drop_last() =~= rs.drop_last());
        assert(rs2.last() == r);
        assert(index_of_records(rs2) =~= index_of_records(rs).insert(r.name, r));
    } else {
        let prefix = rs.drop_last();
        assert(forall|i: int| 0 <= i < prefix.len() ==> prefix[i] == rs[i]);
        lemma_index_update(prefix, idx, r);
        assert(rs2.drop_last() =~= prefix.update(idx, r));
        assert(rs2.last() == rs.last());
        assert(rs.last().name != r.name);
        assert(index_of_records(rs2) =~= index_of_records(rs).insert(r.name, r));
    }
}

/// The catalog: personality records loaded once and indexed by name.
///
/// Its abstract value (the `view`) is the name-keyed mapping; `records`
/// gives the backing sequence, whose names are pairwise distinct in every
/// catalog a constructor returns.
#[derive(Debug)]
pub struct PersonalityLoader {
    personalities: Vec<Personality>,
}

impl View for PersonalityLoader {
    type V = Map<Seq<char>, RecordModel>;

    open spec fn view(&self) -> Map<Seq<char>, RecordModel> {
        index_of_records(self.records())
    }
}

impl PersonalityLoader {
    /// The records held, in storage order.
    pub closed spec fn records(self) -> Seq<RecordModel> {
        self.personalities.deep_view()
    }

    /// Every stored name is distinct, so each record is the one its name
    /// maps to.
    pub open spec fn wf(self) -> bool {
        distinct_names(self.records())
    }
}

/// Position of the first record named `name`, if any.
fn find_name(list: &Vec<Personality>, name: &String) -> (r: Option<usize>)
    ensures
        match r {
            Some(idx) => {
                &&& idx < list@.len()
                &&& list.deep_view()[idx as int].name == name@
                &&& forall|j: int| 0 <= j < idx ==> list.deep_view()[j].name != name@
            },
            None => forall|j: int| 0 <= j < list@.len() ==> list.deep_view()[j].name != name@,
        },
{
    let n = list.len();
    let mut idx: usize = 0;
    while idx < n
        invariant
            idx <= n == list@.len(),
            forall|j: int| 0 <= j < idx ==> list.deep_view()[j].name != name@,
        decreases n - idx,
    {
        if list[idx].name.eq(name) {
            return Some(idx);
        }
        idx = idx + 1;
    }
    None
}

impl PersonalityLoader {
    /// Folds a record sequence into a catalog: later records overwrite
    /// earlier ones with the same name.
    fn from_records(list: Vec<Personality>) -> (c: Self)
        ensures
            c.wf(),
            c@ == index_of_records(list.deep_view()),
    {
        let ghost full = list.deep_view();
        let mut rest = list;
        let mut kept: Vec<Personality> = Vec::new();
        let ghost done = Seq::<RecordModel>::empty();
        proof {
            assert(done + rest.deep_view() =~= full);
            assert(kept.deep_view() =~= Seq::<RecordModel>::empty());
        }
        loop
            invariant
                done + rest.deep_view() == full,
                distinct_names(kept.deep_view()),
                index_of_records(kept.deep_view()) == index_of_records(done),
            ensures
                rest@.len() == 0,
                done + rest.deep_view() == full,
                distinct_names(kept.deep_view()),
                index_of_records(kept.deep_view()) == index_of_records(done),
            decreases rest@.len(),
        {
            if rest.len() == 0 {
                break ;
            }
            let ghost rest_views = rest.deep_view();
            let ghost kept_views = kept.deep_view();
            let p = rest.remove(0);
            proof {
                assert(rest.deep_view() =~= rest_views.drop_first());
                assert((done.push(p@)) + rest.deep_view() =~= full);
                assert(done.push(p@).drop_last() =~= done);
            }
            match find_name(&kept, &p.name) {
                Some(idx) => {
                    proof {
                        lemma_index_update(kept_views, idx as int, p@);
                    }
                    kept[idx] = p;
                    proof {
                        assert(kept.deep_view() =~= kept_views.update(idx as int, p@));
                    }
                },
                None => {
                    kept.push(p);
                    proof {
                        assert(kept.deep_view() =~= kept_views.push(p@));
                        assert(kept.deep_view().drop_last() =~= kept_views);
                    }
                },
            }
            proof {
                done = done.push(p@);
            }
        }
        proof {
            assert(done =~= full);
        }
        PersonalityLoader { personalities: kept }
    }

    /// Loads a catalog from the text of a personality document: exactly the
    /// inputs [`parse_document`] accepts yield a catalog, built from the
    /// parsed records with later duplicates of a name overwriting earlier
    /// ones; every other input is a [`LoadError::ParseError`].
    pub fn from_json_str(content: &str) -> (r: Result<Self, LoadError>)
        ensures
            match parse_document(content@) {
                Some(rs) => match r {
                    Ok(c) => c.wf() && c@ == index_of_records(rs),
                    Err(_) => false,
                },
                None => r == Err::<PersonalityLoader, LoadError>(LoadError::ParseError),
            },
    {
        match parse_personalities(content) {
            Some(list) => Ok(Self::from_records(list)),
            None => Err(LoadError::ParseError),
        }
    }
}

/// Whether a record carries at least one of the requested tags.
pub open spec fn has_tag_of(r: RecordModel, tags: Seq<Seq<char>>) -> bool {
    exists|k: int| 0 <= k < tags.len() && r.tags.contains(tags[k])
}

/// Whether `t` occurs in `v`.
fn contains_string(v: &Vec<String>, t: &String) -> (r: bool)
    ensures
        r == v.deep_view().contains(t@),
{
    let n = v.len();
    let mut i: usize = 0;
    while i < n
        invariant
            i <= n == v@.len(),
            forall|j: int| 0 <= j < i ==> v.deep_view()[j] != t@,
        decreases n - i,
    {
        if v[i].eq(t) {
            assert(v.deep_view()[i as int] == t@);
            return true;
        }
        i = i + 1;
    }
    false
}

/// Whether `p` carries at least one of the requested tags.
fn has_matching_tag(p: &Personality, tags: &[String]) -> (r: bool)
    ensures
        r == has_tag_of(p@, tags.deep_view()),
{
    let n = tags.len();
    let mut k: usize = 0;
    while k < n
        invariant
            k <= n == tags@.len(),
            forall|j: int| 0 <= j < k ==> !p@.tags.contains(tags.deep_view()[j]),
        decreases n - k,
    {
        if contains_string(&p.tags, &tags[k]) {
            assert(p@.tags.contains(tags.deep_view()[k as int]));
            return true;
        }
        k = k + 1;
    }
    false
}

impl PersonalityLoader {
    /// Looks a record up by its exact name: `Some` exactly when the name is
    /// a key of the mapping, holding the record that name maps to.
    pub fn get(&self, name: &str) -> (r: Option<&Personality>)
        requires
            self.wf(),
        ensures
            match r {
                Some(p) => self@.contains_key(name@) && p@ == self@[name@],
                None => !self@.contains_key(name@),
            },
    {
        let key = String::from_str(name);
        let n = self.personalities.len();
        let mut i: usize = 0;
        while i < n
            invariant
                i <= n == self.records().len(),
                self.wf(),
                key@ == name@,
                forall|j: int| 0 <= j < i ==> self.records()[j].name != name@,
            decreases n - i,
        {
            if self.personalities[i].name.eq(&key) {
                proof {
                    assert(self.records()[i as int].name == name@);
                    lemma_index_last_wins(self.records(), i as int);
                }
                return Some(&self.personalities[i]);
            }
            i = i + 1;
        }
        proof {
            lemma_index_domain(self.records(), name@);
        }
        None
    }

    /// Every record, in storage order.
    pub fn get_all(&self) -> (r: Vec<&Personality>)
        ensures
            r@.len() == self.records().len(),
            forall|i: int| 0 <= i < r@.len() ==> r@[i]@ == self.records()[i],
    {
        let n = self.personalities.len();
        let mut out: Vec<&Personality> = Vec::new();
        let mut i: usize = 0;
        while i < n
            invariant
                i <= n == self.records().len(),
                out@.len() == i,
                forall|j: int| 0 <= j < i ==> out@[j]@ == self.records()[j],
            decreases n - i,
        {
            out.push(&self.personalities[i]);
            i = i + 1;
        }
        out
    }

    /// Every record carrying at least one of the requested tags, in storage
    /// order; with no requested tags, no record.
    pub fn filter_by_tags(&self, tags: &[String]) -> (r: Vec<&Personality>)
        ensures
            r@.map_values(|p: &Personality| p@) == self.records().filter(
                (|rec: RecordModel| has_tag_of(rec, tags.deep_view())),
            ),
    {
        let ghost pred = (|rec: RecordModel| has_tag_of(rec, tags.deep_view()));
        let n = self.personalities.len();
        let mut out: Vec<&Personality> = Vec::new();
        let mut i: usize = 0;
        proof {
            reveal(Seq::filter);
            assert(out@.map_values(|p: &Personality| p@) =~= self.records().take(0).filter(pred));
        }
        while i < n
            invariant
                i <= n == self.records().len(),
                pred == (|rec: RecordModel| has_tag_of(rec, tags.deep_view())),
                out@.map_values(|p: &Personality| p@) == self.records().take(i as int).filter(
                    pred,
                ),
            decreases n - i,
        {
            let ghost prev = out@.map_values(|p: &Personality| p@);
            proof {
                reveal(Seq::filter);
                assert(self.records()[i as int] == self.personalities@[i as int]@);
                assert(self.records().take(i + 1).drop_last() =~= self.records().take(i as int));
                assert(self.records().take(i + 1).last() == self.records()[i as int]);
                if pred(self.records()[i as int]) {
                    assert(self.records().take(i + 1).filter(pred) == self.records().take(
                        i as int,
                    ).filter(pred).push(self.records()[i as int]));
                } else {
                    assert(self.records().take(i + 1).filter(pred) == self.records().take(
                        i as int,
                    ).filter(pred));
                }
            }
            if has_matching_tag(&self.personalities[i], tags) {
                out.push(&self.personalities[i]);
                proof {
                    assert(out@.map_values(|p: &Personality| p@) =~= prev.push(
                        self.records()[i as int],
                    ));
                }
            }
            i = i + 1;
        }
        proof {
            assert(self.records().take(n as int) =~= self.records());
        }
        out
    }

    /// Every key of the mapping: one name per record, in storage order.
    pub fn get_names(&self) -> (r: Vec<String>)
        requires
            self.wf(),
        ensures
            r@.len() == self@.dom().len(),
            forall|i: int| 0 <= i < r@.len() ==> r@[i]@ == self.records()[i].name,
            forall|n: Seq<char>| self@.contains_key(n) <==> r.deep_view().contains(n),
    {
        let n = self.personalities.len();
        let mut out: Vec<String> = Vec::new();
        let mut i: usize = 0;
        while i < n
            invariant
                i <= n == self.records().len(),
                out@.len() == i,
                forall|j: int| 0 <= j < i ==> out@[j]@ == self.records()[j].name,
            decreases n - i,
        {
            out.push(self.personalities[i].name.clone());
            i = i + 1;
        }
        proof {
            lemma_index_len(self.records());
            assert forall|m: Seq<char>| self@.contains_key(m) implies out.deep_view().contains(
                m,
            ) by {
                lemma_index_domain(self.records(), m);
                let k = choose|k: int| 0 <= k < self.records().len() && self.records()[k].name
                    == m;
                assert(out.deep_view()[k] == m);
            }
            assert forall|m: Seq<char>| out.deep_view().contains(m) implies self@.contains_key(
                m,
            ) by {
                let k = choose|k: int| 0 <= k < out.deep_view().len() && out.deep_view()[k] == m;
                assert(self.records()[k].name == m);
                lemma_index_domain(self.records(), m);
            }
        }
        out
    }

    /// The number of distinct-named records held: the size of the mapping.
    pub fn count(&self) -> (r: usize)
        requires
            self.wf(),
        ensures
            r == self@.dom().len(),
            r == self.records().len(),
    {
        proof {
            lemma_index_len(self.records());
        }
        self.personalities.len()
    }
}

impl PersonalityLoader {
    /// Loads the catalog from the data set embedded in the crate, with the
    /// same parsing rules as any other source. A correctly built crate
    /// always holds a parseable data set; should it not, the catalog of no
    /// records stands in, and the data-set tests fail loudly.
    pub fn from_embedded() -> (c: Self)
        ensures
            c.wf(),
            match parse_document(crate::data::embedded_doc()) {
                Some(rs) => c@ == index_of_records(rs),
                None => c@ == Map::<Seq<char>, RecordModel>::empty(),
            },
    {
        let text = crate::data::embedded_json();
        match Self::from_json_str(text.as_str()) {
            Ok(c) => c,
            Err(_) => {
                let c = PersonalityLoader { personalities: Vec::new() };
                proof {
                    assert(c.records() =~= Seq::<RecordModel>::empty());
                    assert(c@ =~= Map::<Seq<char>, RecordModel>::empty());
                }
                c
            },
        }
    }
}

impl Default for PersonalityLoader {
    /// Equivalent to loading the embedded data set.
    fn default() -> (c: Self)
        ensures
            c.wf(),
            match parse_document(crate::data::embedded_doc()) {
                Some(rs) => c@ == index_of_records(rs),
                None => c@ == Map::<Seq<char>, RecordModel>::empty(),
            },
    {
        PersonalityLoader::from_embedded()
    }
}

/// Loads the catalog from the embedded data set.
pub fn load_personalities() -> (c: PersonalityLoader)
    ensures
        c.wf(),
        match parse_document(crate::data::embedded_doc()) {
            Some(rs) => c@ == index_of_records(rs),
            None => c@ == Map::<Seq<char>, RecordModel>::empty(),
        },
{
    PersonalityLoader::from_embedded()
}

/// The mapping holds one entry per distinct name of the source sequence,
/// however many of its records share a name: a catalog loaded from it
/// counts distinct names, not array entries.
pub proof fn lemma_count_is_distinct_names(rs: Seq<RecordModel>)
    ensures
        index_of_records(rs).dom().len() == name_set(rs).len(),
{
    lemma_index_keys(rs);
}

/// Every loaded record is found again under its own name: in a well-formed
/// catalog, each record's name maps back to exactly that record.
pub proof fn lemma_record_found_by_name(c: PersonalityLoader, k: int)
    requires
        c.wf(),
        0 <= k < c.records().len(),
    ensures
        c@.contains_key(c.records()[k].name),
        c@[c.records()[k].name] == c.records()[k],
{
    lemma_index_last_wins(c.records(), k);
}

/// A filtered record comes from the sequence and carries a requested tag,
/// and every such record is in the filtered sequence: tag filtering selects
/// exactly the matching subset.
pub proof fn lemma_filter_by_tags_membership(
    rs: Seq<RecordModel>,
    tags: Seq<Seq<char>>,
    r: RecordModel,
)
    ensures
        rs.filter((|rec: RecordModel| has_tag_of(rec, tags))).contains(r) <==> rs.contains(r)
            && has_tag_of(r, tags),
    decreases rs.len(),
{
    reveal(Seq::filter);
    let pred = (|rec: RecordModel| has_tag_of(rec, tags));
    if rs.len() > 0 {
        lemma_filter_by_tags_membership(rs.drop_last(), tags, r);
        let sub = rs.drop_last().filter(pred);
        if rs.filter(pred).contains(r) {
            let idx = choose|i: int| 0 <= i < rs.filter(pred).len() && rs.filter(pred)[i] == r;
            if pred(rs.last()) {
                if idx < sub.len() {
                    assert(sub[idx] == r);
                } else {
                    assert(r == rs.last());
                }
            } else {
                assert(sub[idx] == r);
            }
            if rs.drop_last().contains(r) {
                let j = choose|j: int| 0 <= j < rs.drop_last().len() && rs.drop_last()[j] == r;
                assert(rs[j] == r);
            } else {
                assert(rs[rs.len() - 1] == r);
            }
        }
        if rs.contains(r) && has_tag_of(r, tags) {
            let j = choose|j: int| 0 <= j < rs.len() && rs[j] == r;
            if j < rs.len() - 1 {
                assert(rs.drop_last()[j] == r);
                let idx = choose|i: int| 0 <= i < sub.len() && sub[i] == r;
                if pred(rs.last()) {
                    assert(rs.filter(pred)[idx] == r);
                } else {
                    assert(rs.filter(pred)[idx] == r);
                }
            } else {
                assert(rs.last() == r);
                assert(rs.filter(pred).last() == r);
            }
        }
    }
}

/// With no requested tags nothing matches: the filtered sequence is empty.
pub proof fn lemma_filter_no_tags(rs: Seq<RecordModel>)
    ensures
        rs.filter(
            (|rec: RecordModel| has_tag_of(rec, Seq::<Seq<char>>::empty())),
        ).len() == 0,
    decreases rs.len(),
{
    reveal(Seq::filter);
    if rs.len() > 0 {
        lemma_filter_no_tags(rs.drop_last());
    }
}

} // verus!

