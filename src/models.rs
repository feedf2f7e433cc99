//! Documents handed to ingest and results handed back by search.
use vstd::prelude::*;

use crate::tokenization::views;
use crate::tokenizer::same_text;

verus! {

#[verifier::external_type_specification]
#[verifier::external_body]
pub struct ExNumber(serde_json::Number);

/// A JSON-shaped metadata value. Numbers are kept as they were written.
#[derive(Debug)]
pub enum JsonValue {
    Null,
    Bool(bool),
    Number(serde_json::Number),
    Str(String),
    Array(Vec<JsonValue>),
    /// An object as its keys and, at the same indices, their values.
    Object { keys: Vec<String>, values: Vec<JsonValue> },
}

/// The metadata key reserved for tags.
pub const TAGS_KEY: &'static str = "tags";

/// The strings among a list of JSON values, in order.
pub open spec fn string_items(a: Seq<JsonValue>) -> Seq<Seq<char>>
    decreases a.len(),
{
    if a.len() == 0 {
        Seq::empty()
    } else {
        let prev = string_items(a.drop_last());
        match a.last() {
            JsonValue::Str(s) => prev.push(s@),
            _ => prev,
        }
    }
}

/// Whether each key occurs at most once in `es`.
pub open spec fn unique_keys(es: Seq<(String, JsonValue)>) -> bool {
    forall|i: int, j: int| 0 <= i < j < es.len() ==> #[trigger] es[i].0@ != #[trigger] es[j].0@
}

/// The value stored under `k` in `es`, if any.
pub open spec fn get_in(es: Seq<(String, JsonValue)>, k: Seq<char>) -> Option<JsonValue> {
    if exists|i: int| 0 <= i < es.len() && #[trigger] es[i].0@ == k {
        let i = choose|i: int| 0 <= i < es.len() && #[trigger] es[i].0@ == k;
        Some(es[i].1)
    } else {
        None
    }
}

proof fn lemma_get_in_at(es: Seq<(String, JsonValue)>, i: int)
    requires
        unique_keys(es),
        0 <= i < es.len(),
    ensures
        get_in(es, es[i].0@) == Some(es[i].1),
{
    let k = es[i].0@;
    assert(exists|j: int| 0 <= j < es.len() && #[trigger] es[j].0@ == k);
    let j = choose|j: int| 0 <= j < es.len() && #[trigger] es[j].0@ == k;
    if j < i {
        assert(es[j].0@ != es[i].0@);
    } else if j > i {
        assert(es[i].0@ != es[j].0@);
    }
}

proof fn lemma_get_in_skip_first(es: Seq<(String, JsonValue)>, k: Seq<char>)
    requires
        unique_keys(es),
        es.len() > 0,
        es[0].0@ != k,
    ensures
        get_in(es, k) == get_in(es.drop_first(), k),
{
    let t = es.drop_first();
    assert(unique_keys(t)) by {
        assert forall|i: int, j: int| 0 <= i < j < t.len() implies #[trigger] t[i].0@ != #[trigger] t[j].0@ by {
            assert(es[i + 1].0@ != es[j + 1].0@);
        }
    }
    if exists|j: int| 0 <= j < es.len() && #[trigger] es[j].0@ == k {
        let j = choose|j: int| 0 <= j < es.len() && #[trigger] es[j].0@ == k;
        assert(t[j - 1].0@ == k);
        lemma_get_in_at(es, j);
        lemma_get_in_at(t, j - 1);
    } else {
        assert forall|m: int| 0 <= m < t.len() implies #[trigger] t[m].0@ != k by {
            assert(es[m + 1] == t[m]);
        }
    }
}

/// Unordered key-value metadata of a document; each key occurs once.
#[derive(Debug)]
pub struct Metadata {
    entries: Vec<(String, JsonValue)>,
}

impl Metadata {
    pub closed spec fn spec_entries(&self) -> Seq<(String, JsonValue)> {
        self.entries@
    }

    /// Each key occurs at most once.
    pub open spec fn wf(&self) -> bool {
        unique_keys(self.spec_entries())
    }

    /// The keys, in storage order.
    pub open spec fn spec_keys(&self) -> Seq<Seq<char>> {
        self.spec_entries().map_values(|e: (String, JsonValue)| e.0@)
    }

    /// The value stored under `k`, if any.
    pub open spec fn spec_get(&self, k: Seq<char>) -> Option<JsonValue> {
        get_in(self.spec_entries(), k)
    }

    /// The tags: the strings of the array under `tags`, or none when that value is absent
    /// or not an array.
    pub open spec fn spec_tags(&self) -> Seq<Seq<char>> {
        match self.spec_get(TAGS_KEY@) {
            Some(JsonValue::Array(a)) => string_items(a@),
            _ => Seq::empty(),
        }
    }

    /// Whether the value under `tags` is an array.
    pub open spec fn tags_is_array(&self) -> bool {
        self.spec_get(TAGS_KEY@) matches Some(JsonValue::Array(_))
    }

    pub fn new() -> (r: Self)
        ensures
            r.wf(),
            r.spec_entries().len() == 0,
    {
        Metadata { entries: Vec::new() }
    }

    pub fn len(&self) -> (r: usize)
        ensures
            r == self.spec_entries().len(),
    {
        self.entries.len()
    }

    pub fn is_empty(&self) -> (r: bool)
        ensures
            r == (self.spec_entries().len() == 0),
    {
        self.entries.len() == 0
    }

    /// The entry at `i` in storage order.
    pub fn entry(&self, i: usize) -> (r: &(String, JsonValue))
        requires
            i < self.spec_entries().len(),
        ensures
            *r == self.spec_entries()[i as int],
    {
        &self.entries[i]
    }

    fn find(&self, key: &str) -> (r: Option<usize>)
        requires
            self.wf(),
        ensures
            match r {
                Some(i) => i < self.spec_entries().len() && self.spec_entries()[i as int].0@ == key@,
                None => forall|j: int|
                    0 <= j < self.spec_entries().len() ==> #[trigger] self.spec_entries()[j].0@ != key@,
            },
    {
        let mut i: usize = 0;
        while i < self.entries.len()
            invariant
                0 <= i <= self.spec_entries().len(),
                forall|j: int| 0 <= j < i ==> #[trigger] self.spec_entries()[j].0@ != key@,
            decreases self.spec_entries().len() - i,
        {
            if same_text(self.entries[i].0.as_str(), key) {
                return Some(i);
            }
            i = i + 1;
        }
        None
    }

    /// The value stored under `key`.
    pub fn get(&self, key: &str) -> (r: Option<&JsonValue>)
        requires
            self.wf(),
        ensures
            match r {
                Some(v) => self.spec_get(key@) == Some(*v),
                None => self.spec_get(key@) is None,
            },
    {
        match self.find(key) {
            Some(i) => {
                proof {
                    self.lemma_get_at(i as int);
                }
                Some(&self.entries[i].1)
            },
            None => None,
        }
    }

    proof fn lemma_get_at(&self, i: int)
        requires
            self.wf(),
            0 <= i < self.spec_entries().len(),
        ensures
            self.spec_get(self.spec_entries()[i].0@) == Some(self.spec_entries()[i].1),
    {
        lemma_get_in_at(self.spec_entries(), i);
    }

    /// Stores `value` under `key`, replacing what was there.
    pub fn insert(&mut self, key: String, value: JsonValue)
        requires
            old(self).wf(),
        ensures
            final(self).wf(),
            final(self).spec_get(key@) == Some(value),
            forall|k: Seq<char>| k != key@ ==> #[trigger] final(self).spec_get(k) == old(self).spec_get(k),
    {
        let ghost key_view = key@;
        match self.find(key.as_str()) {
            Some(i) => {
                let ghost before = self.spec_entries();
                self.entries.set(i, (key, value));
                proof {
                    assert(self.wf()) by {
                        assert forall|a: int, b: int| 0 <= a < b < self.spec_entries().len() implies
                            #[trigger] self.spec_entries()[a].0@ != #[trigger] self.spec_entries()[b].0@ by {
                            assert(before[a].0@ != before[b].0@);
                        }
                    }
                    self.lemma_get_at(i as int);
                    assert forall|k: Seq<char>| k != key_view implies #[trigger] self.spec_get(k) == old(self).spec_get(k) by {
                        self.lemma_get_same(*old(self), k, i as int);
                    }
                }
            },
            None => {
                self.entries.push((key, value));
                proof {
                    let n = old(self).spec_entries().len() as int;
                    self.lemma_get_at(n);
                    assert forall|k: Seq<char>| k != key_view implies #[trigger] self.spec_get(k) == old(self).spec_get(k) by {
                        self.lemma_get_same(*old(self), k, n);
                    }
                }
            },
        }
    }

    /// Appends `tag` to the array under `tags`, first replacing a value there that is not
    /// an array by an empty one.
    fn push_tag(&mut self, tag: String)
        requires
            old(self).wf(),
        ensures
            final(self).wf(),
            final(self).tags_is_array(),
            final(self).spec_tags() == (if old(self).tags_is_array() {
                old(self).spec_tags()
            } else {
                Seq::empty()
            }).push(tag@),
            forall|k: Seq<char>| k != TAGS_KEY@ ==> #[trigger] final(self).spec_get(k) == old(self).spec_get(k),
    {
        let ghost tag_view = tag@;
        match self.find(TAGS_KEY) {
            Some(i) => {
                proof {
                    self.lemma_get_at(i as int);
                }
                let ghost old_tags = old(self).spec_tags();
                let ghost was_array = old(self).tags_is_array();
                let (k, v) = self.entries.remove(i);
                let nv = match v {
                    JsonValue::Array(mut a) => {
                        let ghost a0 = a@;
                        assert(string_items(a0) == old_tags);
                        a.push(JsonValue::Str(tag));
                        proof {
                            assert(a@.drop_last() =~= a0);
                            assert(string_items(a@) == old_tags.push(tag_view));
                        }
                        JsonValue::Array(a)
                    },
                    _ => {
                        assert(!was_array);
                        let a = vec![JsonValue::Str(tag)];
                        proof {
                            assert(a@.drop_last() =~= Seq::<JsonValue>::empty());
                            assert(string_items(a@.drop_last()) =~= Seq::<Seq<char>>::empty());
                            assert(string_items(a@) == Seq::<Seq<char>>::empty().push(tag_view));
                        }
                        JsonValue::Array(a)
                    },
                };
                let ghost nvg = nv;
                self.entries.insert(i, (k, nv));
                proof {
                    let before = old(self).spec_entries();
                    assert(self.spec_entries() =~= before.update(i as int, self.spec_entries()[i as int]));
                    assert(self.wf()) by {
                        assert forall|a: int, b: int| 0 <= a < b < self.spec_entries().len() implies
                            #[trigger] self.spec_entries()[a].0@ != #[trigger] self.spec_entries()[b].0@ by {
                            assert(before[a].0@ != before[b].0@);
                        }
                    }
                    self.lemma_get_at(i as int);
                    assert(self.spec_get(TAGS_KEY@) == Some(nvg));
                    assert forall|k: Seq<char>| k != TAGS_KEY@ implies #[trigger] self.spec_get(k) == old(self).spec_get(k) by {
                        self.lemma_get_same(*old(self), k, i as int);
                    }
                }
            },
            None => {
                let a = vec![JsonValue::Str(tag)];
                proof {
                    assert(a@.drop_last() =~= Seq::<JsonValue>::empty());
                    assert(string_items(a@.drop_last()) =~= Seq::<Seq<char>>::empty());
                    assert(string_items(a@) == Seq::<Seq<char>>::empty().push(tag_view));
                }
                let ghost nvg = JsonValue::Array(a);
                self.entries.push((TAGS_KEY.to_owned(), JsonValue::Array(a)));
                proof {
                    let n = old(self).spec_entries().len() as int;
                    self.lemma_get_at(n);
                    assert(self.spec_get(TAGS_KEY@) == Some(nvg));
                    assert(!old(self).tags_is_array());
                    assert forall|k: Seq<char>| k != TAGS_KEY@ implies #[trigger] self.spec_get(k) == old(self).spec_get(k) by {
                        self.lemma_get_same(*old(self), k, n);
                    }
                }
            },
        }
    }

    /// Stores every entry of `other`, replacing values under the same keys.
    pub fn extend(&mut self, other: Metadata)
        requires
            old(self).wf(),
            other.wf(),
        ensures
            final(self).wf(),
            forall|k: Seq<char>| #[trigger] final(self).spec_get(k) == match other.spec_get(k) {
                Some(v) => Some(v),
                None => old(self).spec_get(k),
            },
    {
        let ghost src = other.spec_entries();
        let mut rest = other.entries;
        while rest.len() > 0
            invariant
                self.wf(),
                unique_keys(src),
                rest@ == src.subrange(0, rest@.len() as int),
                rest@.len() <= src.len(),
                forall|k: Seq<char>| #[trigger] self.spec_get(k) == match get_in(src.subrange(rest@.len() as int, src.len() as int), k) {
                    Some(v) => Some(v),
                    None => old(self).spec_get(k),
                },
            decreases rest@.len(),
        {
            let ghost n = rest@.len() as int;
            let (k, v) = rest.pop().unwrap();
            let ghost kv = k@;
            let ghost vv = v;
            self.insert(k, v);
            proof {
                let tail = src.subrange(n - 1, src.len() as int);
                assert(tail[0] == src[n - 1]);
                assert(tail.drop_first() =~= src.subrange(n, src.len() as int));
                assert(unique_keys(tail));
                lemma_get_in_at(tail, 0);
                assert forall|q: Seq<char>| #[trigger] self.spec_get(q) == match get_in(tail, q) {
                    Some(w) => Some(w),
                    None => old(self).spec_get(q),
                } by {
                    if q != kv {
                        lemma_get_in_skip_first(tail, q);
                    }
                }
                assert(rest@ =~= src.subrange(0, n - 1));
            }
        }
        proof {
            assert(src.subrange(0, src.len() as int) =~= src);
        }
    }

    /// The tags, in order.
    pub fn tags(&self) -> (r: Vec<String>)
        requires
            self.wf(),
        ensures
            views(r@) == self.spec_tags(),
    {
        let mut out: Vec<String> = Vec::new();
        match self.get(TAGS_KEY) {
            Some(JsonValue::Array(a)) => {
                let mut i: usize = 0;
                while i < a.len()
                    invariant
                        0 <= i <= a@.len(),
                        views(out@) == string_items(a@.subrange(0, i as int)),
                    decreases a@.len() - i,
                {
                    let ghost pre = a@.subrange(0, i as int);
                    assert(a@.subrange(0, i as int + 1).drop_last() =~= pre);
                    match &a[i] {
                        JsonValue::Str(s) => {
                            out.push(s.clone());
                            assert(views(out@) =~= string_items(pre).push(s@));
                        },
                        _ => {},
                    }
                    i = i + 1;
                }
                assert(a@.subrange(0, a@.len() as int) =~= a@);
            },
            _ => {
                assert(views(out@) =~= Seq::<Seq<char>>::empty());
            },
        }
        out
    }

    proof fn lemma_get_same(&self, other: Metadata, k: Seq<char>, skip: int)
        requires
            self.wf(),
            other.wf(),
            0 <= skip < self.spec_entries().len(),
            self.spec_entries()[skip].0@ != k,
            skip < other.spec_entries().len() ==> other.spec_entries()[skip].0@ != k,
            other.spec_entries().len() <= self.spec_entries().len() <= other.spec_entries().len() + 1,
            forall|j: int| 0 <= j < other.spec_entries().len() && j != skip ==> #[trigger] self.spec_entries()[j] == other.spec_entries()[j],
            self.spec_entries().len() == other.spec_entries().len() + 1 ==> skip == other.spec_entries().len(),
        ensures
            self.spec_get(k) == other.spec_get(k),
    {
        if exists|j: int| 0 <= j < other.spec_entries().len() && #[trigger] other.spec_entries()[j].0@ == k {
            let j = choose|j: int| 0 <= j < other.spec_entries().len() && #[trigger] other.spec_entries()[j].0@ == k;
            other.lemma_get_at(j);
            assert(self.spec_entries()[j] == other.spec_entries()[j]);
            self.lemma_get_at(j);
        } else if exists|j: int| 0 <= j < self.spec_entries().len() && #[trigger] self.spec_entries()[j].0@ == k {
            let j = choose|j: int| 0 <= j < self.spec_entries().len() && #[trigger] self.spec_entries()[j].0@ == k;
            assert(j != skip);
            assert(j < other.spec_entries().len());
            assert(self.spec_entries()[j] == other.spec_entries()[j]);
        }
    }
}


/// A chunk of text to index, with the source it came from and its metadata.
#[derive(Debug)]
pub struct Document {
    pub id: String,
    pub source_id: String,
    pub text: String,
    pub metadata: Metadata,
}

impl Document {
    /// The tags that `with_tag` extends: those of the array under `tags`, or none when
    /// that value is absent or not an array.
    pub open spec fn base_tags(&self) -> Seq<Seq<char>> {
        if self.metadata.tags_is_array() {
            self.metadata.spec_tags()
        } else {
            Seq::empty()
        }
    }

    pub fn new(id: &str, source_id: &str, text: &str) -> (r: Self)
        ensures
            r.id@ == id@,
            r.source_id@ == source_id@,
            r.text@ == text@,
            r.metadata.wf(),
            r.metadata.spec_entries().len() == 0,
    {
        Document {
            id: id.to_owned(),
            source_id: source_id.to_owned(),
            text: text.to_owned(),
            metadata: Metadata::new(),
        }
    }

    /// Stores `value` under `key`, replacing what was there, `tags` included.
    pub fn with_metadata(self, key: &str, value: JsonValue) -> (r: Self)
        requires
            self.metadata.wf(),
        ensures
            r.id == self.id && r.source_id == self.source_id && r.text == self.text,
            r.metadata.wf(),
            r.metadata.spec_get(key@) == Some(value),
            forall|k: Seq<char>| k != key@ ==> #[trigger] r.metadata.spec_get(k) == self.metadata.spec_get(k),
    {
        let mut d = self;
        d.metadata.insert(key.to_owned(), value);
        d
    }

    /// Merges a map into the metadata; its values win on shared keys.
    pub fn with_metadata_map(self, metadata: Metadata) -> (r: Self)
        requires
            self.metadata.wf(),
            metadata.wf(),
        ensures
            r.id == self.id && r.source_id == self.source_id && r.text == self.text,
            r.metadata.wf(),
            forall|k: Seq<char>| #[trigger] r.metadata.spec_get(k) == match metadata.spec_get(k) {
                Some(v) => Some(v),
                None => self.metadata.spec_get(k),
            },
    {
        let mut d = self;
        d.metadata.extend(metadata);
        d
    }

    /// Appends one tag to the `tags` array, which is created, or replaces a value that is
    /// not an array.
    pub fn with_tag(self, tag: &str) -> (r: Self)
        requires
            self.metadata.wf(),
        ensures
            r.id == self.id && r.source_id == self.source_id && r.text == self.text,
            r.metadata.wf(),
            r.metadata.tags_is_array(),
            r.metadata.spec_tags() == self.base_tags().push(tag@),
            forall|k: Seq<char>| k != TAGS_KEY@ ==> #[trigger] r.metadata.spec_get(k) == self.metadata.spec_get(k),
    {
        let mut d = self;
        d.metadata.push_tag(tag.to_owned());
        d
    }

    /// Appends the tags in order.
    pub fn with_tags(self, tags: Vec<&str>) -> (r: Self)
        requires
            self.metadata.wf(),
        ensures
            r.id == self.id && r.source_id == self.source_id && r.text == self.text,
            r.metadata.wf(),
            tags@.len() > 0 ==> r.metadata.tags_is_array(),
            r.metadata.spec_tags() == if tags@.len() > 0 {
                self.base_tags() + tags@.map_values(|t: &str| t@)
            } else {
                self.metadata.spec_tags()
            },
            forall|k: Seq<char>| k != TAGS_KEY@ ==> #[trigger] r.metadata.spec_get(k) == self.metadata.spec_get(k),
    {
        let mut d = self;
        let mut i: usize = 0;
        while i < tags.len()
            invariant
                0 <= i <= tags@.len(),
                d.id == self.id && d.source_id == self.source_id && d.text == self.text,
                d.metadata.wf(),
                i > 0 ==> d.metadata.tags_is_array(),
                d.metadata.spec_tags() == if i > 0 {
                    self.base_tags() + tags@.subrange(0, i as int).map_values(|t: &str| t@)
                } else {
                    self.metadata.spec_tags()
                },
                forall|k: Seq<char>| k != TAGS_KEY@ ==> #[trigger] d.metadata.spec_get(k) == self.metadata.spec_get(k),
            decreases tags@.len() - i,
        {
            let ghost before = d.metadata.spec_tags();
            d = d.with_tag(tags[i]);
            proof {
                assert(tags@.subrange(0, i as int + 1).map_values(|t: &str| t@) =~= tags@.subrange(
                    0,
                    i as int,
                ).map_values(|t: &str| t@).push(tags@[i as int]@));
                if i == 0 {
                    assert(tags@.subrange(0, 0).map_values(|t: &str| t@) =~= Seq::<Seq<char>>::empty());
                    assert(self.base_tags() + Seq::<Seq<char>>::empty().push(tags@[0]@) =~= self.base_tags().push(tags@[0]@));
                } else {
                    let pre = tags@.subrange(0, i as int).map_values(|t: &str| t@);
                    assert((self.base_tags() + pre).push(tags@[i as int]@) =~= self.base_tags() + pre.push(tags@[i as int]@));
                }
            }
            i = i + 1;
        }
        assert(tags@.subrange(0, tags@.len() as int) =~= tags@);
        d
    }

    /// The tags of the document: the strings of its `tags` array, in order.
    pub fn tags(&self) -> (r: Vec<String>)
        requires
            self.metadata.wf(),
        ensures
            views(r@) == self.metadata.spec_tags(),
    {
        self.metadata.tags()
    }
}

/// Tags added one after another come back in the order they were added, duplicates
/// included, after the tags already in an array under `tags`.
pub proof fn lemma_tag_round_trip(d0: Document, d1: Document, d2: Document, a: Seq<char>, b: Seq<char>)
    requires
        d1.metadata.tags_is_array(),
        d1.metadata.spec_tags() == d0.base_tags().push(a),
        d2.metadata.tags_is_array(),
        d2.metadata.spec_tags() == d1.base_tags().push(b),
    ensures
        d2.metadata.spec_tags() == d0.base_tags() + seq![a, b],
{
    assert(d0.base_tags().push(a).push(b) =~= d0.base_tags() + seq![a, b]);
}

} // verus!
