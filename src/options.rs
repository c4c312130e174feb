use vstd::prelude::*;
use crate::text::{chars_of, spells};

verus! {

/// Whether two texts are equal.
fn text_eq(a: &str, b: &str) -> (r: bool)
    ensures
        r == (a@ == b@),
{
    let ca = chars_of(a);
    spells(&ca, b)
}

/// The value of the first of `keys` that `m` holds.
pub open spec fn first_present(m: Map<Seq<char>, Seq<char>>, keys: Seq<Seq<char>>) -> Option<
    Seq<char>,
>
    decreases keys.len(),
{
    if keys.len() == 0 {
        None
    } else if m.contains_key(keys[0]) {
        Some(m[keys[0]])
    } else {
        first_present(m, keys.drop_first())
    }
}

pub open spec fn str_views(keys: Seq<&str>) -> Seq<Seq<char>> {
    keys.map_values(|k: &str| k@)
}

/// Free-form string options, each key at most once.
pub struct CustomOptions {
    entries: Vec<(String, String)>,
}

impl CustomOptions {
    pub closed spec fn view(&self) -> Map<Seq<char>, Seq<char>> {
        Map::new(
            |k: Seq<char>| exists|i: int| 0 <= i < self.entries@.len() && self.entries@[i].0@ == k,
            |k: Seq<char>|
                self.entries@[choose|i: int|
                    0 <= i < self.entries@.len() && self.entries@[i].0@ == k].1@,
        )
    }

    pub closed spec fn wf(&self) -> bool {
        forall|i: int, j: int|
            0 <= i < j < self.entries@.len() ==> self.entries@[i].0@ != self.entries@[j].0@
    }

    /// No options.
    pub fn new() -> (r: Self)
        ensures
            r.wf(),
            r@ == Map::<Seq<char>, Seq<char>>::empty(),
    {
        let r = CustomOptions { entries: Vec::new() };
        assert(r@ =~= Map::<Seq<char>, Seq<char>>::empty());
        r
    }

    /// How many options are set.
    pub fn len(&self) -> (r: usize)
        requires
            self.wf(),
        ensures
            r == self@.len(),
    {
        proof {
            self.lemma_len();
        }
        self.entries.len()
    }

    proof fn lemma_len(&self)
        requires
            self.wf(),
        ensures
            self@.len() == self.entries@.len(),
            self@.dom().finite(),
        decreases self.entries@.len(),
    {
        let keys = self.entries@.map_values(|e: (String, String)| e.0@);
        assert forall|q: Seq<char>| #[trigger] self@.dom().contains(q) == keys.to_set().contains(q) by {
            if self@.dom().contains(q) {
                let i = choose|i: int| 0 <= i < self.entries@.len() && self.entries@[i].0@ == q;
                assert(keys[i] == q);
            }
            if keys.to_set().contains(q) {
                assert(keys.contains(q));
                let i = choose|i: int| 0 <= i < keys.len() && keys[i] == q;
                assert(self.entries@[i].0@ == q);
            }
        }
        assert(self@.dom() =~= keys.to_set());
        assert forall|i: int, j: int| 0 <= i < j < keys.len() implies keys[i] != keys[j] by {}
        keys.unique_seq_to_set();
    }

    /// The `i`-th option set, for going through all of them; `None` past
    /// the last.
    pub fn entry_at(&self, i: usize) -> (r: Option<(&str, &str)>)
        requires
            self.wf(),
        ensures
            match r {
                Some((k, v)) => i < self@.len() && self@.contains_key(k@) && self@[k@] == v@,
                None => i >= self@.len(),
            },
    {
        proof {
            self.lemma_len();
        }
        if i < self.entries.len() {
            proof {
                let k = self.entries@[i as int].0@;
                let j = choose|j: int| 0 <= j < self.entries@.len() && self.entries@[j].0@ == k;
                assert(j == i);
            }
            Some((self.entries[i].0.as_str(), self.entries[i].1.as_str()))
        } else {
            None
        }
    }

    /// Where `key` stands in the entries, if it is set.
    fn position(&self, key: &str) -> (r: Option<usize>)
        requires
            self.wf(),
        ensures
            match r {
                Some(i) => i < self.entries@.len() && self.entries@[i as int].0@ == key@,
                None => !self@.contains_key(key@),
            },
    {
        let mut i: usize = 0;
        while i < self.entries.len()
            invariant
                0 <= i <= self.entries@.len(),
                forall|j: int| 0 <= j < i ==> self.entries@[j].0@ != key@,
            decreases self.entries@.len() - i,
        {
            if text_eq(self.entries[i].0.as_str(), key) {
                return Some(i);
            }
            i = i + 1;
        }
        None
    }

    /// The value set for `key`.
    pub fn get(&self, key: &str) -> (r: Option<&str>)
        requires
            self.wf(),
        ensures
            match r {
                Some(v) => self@.contains_key(key@) && v@ == self@[key@],
                None => !self@.contains_key(key@),
            },
    {
        match self.position(key) {
            Some(i) => {
                proof {
                    let j = choose|j: int|
                        0 <= j < self.entries@.len() && self.entries@[j].0@ == key@;
                    assert(j == i);
                }
                Some(self.entries[i].1.as_str())
            },
            None => None,
        }
    }

    /// Sets `key` to `value`, replacing what was set before.
    pub fn insert(&mut self, key: String, value: String)
        requires
            old(self).wf(),
        ensures
            final(self).wf(),
            final(self)@ == old(self)@.insert(key@, value@),
    {
        let ghost pre = self.entries@;
        match self.position(key.as_str()) {
            Some(i) => {
                let ghost k = key@;
                self.entries.set(i, (key, value));
                proof {
                    assert forall|q: Seq<char>| #[trigger] self@.contains_key(q) == old(self)@.insert(k, value@).contains_key(q) by {
                        if q == k {
                            assert(self.entries@[i as int].0@ == q);
                        } else if old(self)@.contains_key(q) {
                            let j = choose|j: int| 0 <= j < pre.len() && pre[j].0@ == q;
                            assert(self.entries@[j].0@ == q);
                        }
                    }
                    assert forall|q: Seq<char>| #[trigger] self@.contains_key(q) implies self@[q] == old(self)@.insert(k, value@)[q] by {
                        let j = choose|j: int| 0 <= j < self.entries@.len() && self.entries@[j].0@ == q;
                        if q == k {
                            assert(j == i);
                        } else {
                            let j0 = choose|j0: int| 0 <= j0 < pre.len() && pre[j0].0@ == q;
                            assert(j0 == j);
                        }
                    }
                    assert(self@ =~= old(self)@.insert(k, value@));
                }
            },
            None => {
                let ghost k = key@;
                self.entries.push((key, value));
                proof {
                    let n = pre.len() as int;
                    assert forall|q: Seq<char>| #[trigger] self@.contains_key(q) == old(self)@.insert(k, value@).contains_key(q) by {
                        if q == k {
                            assert(self.entries@[n].0@ == q);
                        } else if old(self)@.contains_key(q) {
                            let j = choose|j: int| 0 <= j < pre.len() && pre[j].0@ == q;
                            assert(self.entries@[j].0@ == q);
                        }
                    }
                    assert forall|q: Seq<char>| #[trigger] self@.contains_key(q) implies self@[q] == old(self)@.insert(k, value@)[q] by {
                        let j = choose|j: int| 0 <= j < self.entries@.len() && self.entries@[j].0@ == q;
                        if q == k {
                            assert(j == n);
                        } else {
                            let j0 = choose|j0: int| 0 <= j0 < pre.len() && pre[j0].0@ == q;
                            assert(j0 == j);
                        }
                    }
                    assert(self@ =~= old(self)@.insert(k, value@));
                }
            },
        }
    }
}

/// The value of the first of `keys` that is set in `options`.
pub fn select_custom_option<'a>(options: &'a CustomOptions, keys: &[&str]) -> (r: Option<&'a str>)
    requires
        options.wf(),
    ensures
        match r {
            Some(v) => first_present(options@, str_views(keys@)) == Some(v@),
            None => first_present(options@, str_views(keys@)) is None,
        },
{
    let mut i: usize = 0;
    assert(str_views(keys@).subrange(0, keys@.len() as int) =~= str_views(keys@));
    while i < keys.len()
        invariant
            0 <= i <= keys@.len(),
            options.wf(),
            first_present(options@, str_views(keys@)) == first_present(
                options@,
                str_views(keys@).subrange(i as int, keys@.len() as int),
            ),
        decreases keys@.len() - i,
    {
        let ghost rest = str_views(keys@).subrange(i as int, keys@.len() as int);
        assert(rest[0] == keys@[i as int]@);
        assert(rest.drop_first() =~= str_views(keys@).subrange(i + 1, keys@.len() as int));
        match options.get(keys[i]) {
            Some(v) => {
                return Some(v);
            },
            None => {},
        }
        i = i + 1;
    }
    assert(str_views(keys@).subrange(i as int, keys@.len() as int).len() == 0);
    None
}

/// How a decoder is opened: the GPU to use, if any, and free-form options.
pub struct DecoderOptions {
    pub gpu_index: Option<usize>,
    pub custom_options: CustomOptions,
}

impl DecoderOptions {
    /// No GPU and no options.
    pub fn new() -> (r: Self)
        ensures
            r.gpu_index is None,
            r.custom_options.wf(),
            r.custom_options@ == Map::<Seq<char>, Seq<char>>::empty(),
    {
        DecoderOptions { gpu_index: None, custom_options: CustomOptions::new() }
    }
}

} // verus!
