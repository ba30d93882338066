use vstd::prelude::*;
use crate::image::Image;
use crate::store::KeyedStore;

verus! {

/// Errors of the template store.
#[derive(Debug, Clone, PartialEq, Eq)]
pub enum TemplateError {
    /// The template directory could not be created or read.
    Directory(String),
    /// The image of this item id could not be decoded.
    Decode(String),
}

/// One template file's item id and, if it decoded, its image.
pub type Outcome = (String, Option<Image>);

/// The store after one outcome: a decoded image is put under its id, a
/// failure leaves the store as it was.
pub open spec fn apply_outcome(m: Map<Seq<char>, Image>, e: Outcome) -> Map<Seq<char>, Image> {
    match e.1 {
        Some(img) => m.insert(e.0@, img),
        None => m,
    }
}

/// The store after a run of outcomes, taken in order.
pub open spec fn with_outcomes(m: Map<Seq<char>, Image>, s: Seq<Outcome>) -> Map<Seq<char>, Image>
    decreases s.len(),
{
    if s.len() == 0 {
        m
    } else {
        with_outcomes(apply_outcome(m, s[0]), s.drop_first())
    }
}

/// How many outcomes of a run hold a decoded image.
pub open spec fn successes(s: Seq<Outcome>) -> nat
    decreases s.len(),
{
    if s.len() == 0 {
        0
    } else {
        (if s[0].1 is Some { 1nat } else { 0nat }) + successes(s.drop_first())
    }
}

/// Every outcome of a run holds a decoded image.
pub open spec fn all_decoded(s: Seq<Outcome>) -> bool {
    forall|i: int| 0 <= i < s.len() ==> (#[trigger] s[i]).1 is Some
}

/// The item id of a template file name: the stem of a name ending in `.png`.
pub open spec fn png_stem(name: Seq<char>) -> Option<Seq<char>> {
    if name.len() > 4 && name.subrange(name.len() - 4, name.len() as int) == seq!['.', 'p', 'n', 'g'] {
        Some(name.subrange(0, name.len() - 4))
    } else {
        None
    }
}

/// Every id whose outcome holds an image is in the store afterwards, whatever
/// failed before or after it.
pub proof fn lemma_download_tolerance(m: Map<Seq<char>, Image>, s: Seq<Outcome>, i: int)
    requires
        0 <= i < s.len(),
        s[i].1 is Some,
    ensures
        with_outcomes(m, s).contains_key(s[i].0@),
    decreases s.len(),
{
    if i == 0 {
        lemma_keeps_keys(apply_outcome(m, s[0]), s.drop_first(), s[0].0@);
    } else {
        lemma_download_tolerance(apply_outcome(m, s[0]), s.drop_first(), i - 1);
    }
}

/// Outcomes never take a key out of the store.
pub proof fn lemma_keeps_keys(m: Map<Seq<char>, Image>, s: Seq<Outcome>, k: Seq<char>)
    requires
        m.contains_key(k),
    ensures
        with_outcomes(m, s).contains_key(k),
    decreases s.len(),
{
    if s.len() > 0 {
        lemma_keeps_keys(apply_outcome(m, s[0]), s.drop_first(), k);
    }
}

/// Removing a template a second time changes nothing.
pub proof fn lemma_remove_idempotent(m: Map<Seq<char>, Image>, k: Seq<char>)
    ensures
        m.remove(k).remove(k) == m.remove(k),
{
    assert(m.remove(k).remove(k) =~= m.remove(k));
}

/// The file name of an item's template: `<uid>.png`.
pub fn template_file_name(uid: &str) -> (r: String)
    ensures
        r@ == uid@ + seq!['.', 'p', 'n', 'g'],
        png_stem(r@) == (if uid@.len() > 0 { Some(uid@) } else { None::<Seq<char>> }),
{
    proof {
        reveal_strlit(".png");
    }
    let mut r = String::from_str(uid);
    r.append(".png");
    assert(r@ =~= uid@ + seq!['.', 'p', 'n', 'g']);
    assert(r@.subrange(0, r@.len() - 4) =~= uid@);
    assert(r@.subrange(r@.len() - 4, r@.len() as int) =~= seq!['.', 'p', 'n', 'g']);
    r
}

/// The item id that a file name stands for, if it names a template.
pub fn template_uid(file_name: &str) -> (r: Option<String>)
    ensures
        r matches Some(u) ==> png_stem(file_name@) == Some(u@),
        r is None ==> png_stem(file_name@) is None,
{
    proof {
        reveal_strlit(".png");
    }
    let n = file_name.unicode_len();
    if n <= 4 {
        return None;
    }
    let ext = String::from_str(file_name.substring_char(n - 4, n));
    let png = String::from_str(".png");
    assert(png@ =~= seq!['.', 'p', 'n', 'g']);
    if ext == png {
        Some(String::from_str(file_name.substring_char(0, n - 4)))
    } else {
        None
    }
}

/// The library of icon templates, keyed by item id.
pub struct TemplateManager {
    pub template_dir: String,
    pub templates: KeyedStore<Image>,
}

impl TemplateManager {
    pub closed spec fn wf(&self) -> bool {
        self.templates.wf()
    }

    /// The templates, by item id.
    pub closed spec fn view(&self) -> Map<Seq<char>, Image> {
        self.templates@
    }

    pub fn new(template_dir: &str) -> (r: Self)
        ensures
            r.wf(),
            r.template_dir@ == template_dir@,
            r@ == Map::<Seq<char>, Image>::empty(),
    {
        TemplateManager { template_dir: String::from_str(template_dir), templates: KeyedStore::new() }
    }

    /// Applies outcomes in order; returns how many held an image.
    fn apply_all(&mut self, outcomes: Vec<Outcome>) -> (count: usize)
        requires
            old(self).wf(),
        ensures
            final(self).wf(),
            final(self)@ == with_outcomes(old(self)@, outcomes@),
            count == successes(outcomes@),
            final(self).template_dir == old(self).template_dir,
    {
        let ghost s = outcomes@;
        let total = outcomes.len();
        proof {
            lemma_successes_le(s);
        }
        let mut rest = outcomes;
        let mut count: usize = 0;
        while rest.len() > 0
            invariant
                self.wf(),
                with_outcomes(self@, rest@) == with_outcomes(old(self)@, s),
                count + successes(rest@) == successes(s),
                successes(s) <= s.len(),
                s.len() == total,
                self.template_dir == old(self).template_dir,
            decreases rest@.len(),
        {
            proof {
                lemma_successes_le(rest@);
            }
            let ghost before = rest@;
            let (uid, decoded) = rest.remove(0);
            assert(rest@ =~= before.drop_first());
            match decoded {
                Some(img) => {
                    self.templates.insert(uid, img);
                    count = count + 1;
                },
                None => {},
            }
        }
        count
    }

    /// Replaces the whole library with the templates read from disk, one
    /// outcome per template file. If any file failed to decode, nothing is
    /// changed and that file's id is reported.
    pub fn load_templates(&mut self, files: Vec<Outcome>) -> (r: Result<(), TemplateError>)
        requires
            old(self).wf(),
        ensures
            final(self).wf(),
            r is Ok <==> all_decoded(files@),
            r is Ok ==> final(self)@ == with_outcomes(Map::empty(), files@),
            r is Err ==> final(self)@ == old(self)@,
            r matches Err(e) ==> exists|i: int|
                0 <= i < files@.len() && files@[i].1 is None && e == TemplateError::Decode(files@[i].0),
    {
        let mut i: usize = 0;
        while i < files.len()
            invariant
                self.wf(),
                self@ == old(self)@,
                i <= files@.len(),
                forall|j: int| 0 <= j < i ==> (#[trigger] files@[j]).1 is Some,
            decreases files@.len() - i,
        {
            if files[i].1.is_none() {
                return Err(TemplateError::Decode(files[i].0.clone()));
            }
            i = i + 1;
        }
        self.templates.clear();
        self.apply_all(files);
        Ok(())
    }

    /// Adds freshly downloaded templates, one outcome per item. A failed
    /// item is skipped and the rest go on; returns how many were added.
    pub fn download_templates(&mut self, fetched: Vec<Outcome>) -> (count: usize)
        requires
            old(self).wf(),
        ensures
            final(self).wf(),
            final(self)@ == with_outcomes(old(self)@, fetched@),
            count == successes(fetched@),
    {
        self.apply_all(fetched)
    }

    /// Whether an id already has a template.
    pub fn has_template(&self, uid: &String) -> (r: bool)
        requires
            self.wf(),
        ensures
            r == self@.contains_key(uid@),
    {
        self.templates.contains(uid)
    }

    /// Adds smoothed templates read from disk, leaving ids that are already
    /// present untouched.
    pub fn process_templates(&mut self, processed: Vec<(String, Image)>)
        requires
            old(self).wf(),
        ensures
            final(self).wf(),
            forall|k: Seq<char>| old(self)@.contains_key(k) ==> final(self)@.contains_key(k)
                && final(self)@[k] == old(self)@[k],
            forall|i: int| 0 <= i < processed@.len() ==> final(self)@.contains_key(#[trigger] processed@[i].0@),
            forall|k: Seq<char>| #[trigger] final(self)@.contains_key(k) && !old(self)@.contains_key(k) ==> exists|i: int|
                0 <= i < processed@.len() && processed@[i].0@ == k && final(self)@[k] == processed@[i].1
                    && forall|j: int| 0 <= j < i ==> processed@[j].0@ != k,
    {
        let ghost s = processed@;
        let ghost start = self@;
        assert(start == old(self)@);
        let mut rest = processed;
        let ghost mut done: int = 0;
        while rest.len() > 0
            invariant
                self.wf(),
                0 <= done <= s.len(),
                rest@ == s.subrange(done, s.len() as int),
                forall|k: Seq<char>| #[trigger] start.contains_key(k) ==> self@.contains_key(k) && self@[k] == start[k],
                forall|i: int| 0 <= i < done ==> self@.contains_key(#[trigger] s[i].0@),
                forall|k: Seq<char>| #[trigger] self@.contains_key(k) && !start.contains_key(k) ==> exists|i: int|
                    0 <= i < done && s[i].0@ == k && self@[k] == s[i].1 && forall|j: int| 0 <= j < i ==> s[j].0@ != k,
            decreases rest@.len(),
        {
            let ghost prev = self@;
            assert(rest@[0] == s[done]);
            let (uid, img) = rest.remove(0);
            let ghost key = uid@;
            if !self.templates.contains(&uid) {
                self.templates.insert(uid, img);
            }
            proof {
                assert(self@ == prev || (self@ == prev.insert(key, img) && !prev.contains_key(key)));
                assert(rest@ =~= s.subrange(done + 1, s.len() as int));
                assert forall|k: Seq<char>| start.contains_key(k) implies self@.contains_key(k)
                    && self@[k] == start[k] by {
                    assert(prev.contains_key(k));
                }
                assert forall|i: int| 0 <= i < done + 1 implies self@.contains_key(#[trigger] s[i].0@) by {
                    if i < done {
                        assert(prev.contains_key(s[i].0@));
                    }
                }
                assert forall|k: Seq<char>| #[trigger] self@.contains_key(k) && !start.contains_key(k) implies exists|i: int|
                    0 <= i < done + 1 && s[i].0@ == k && self@[k] == s[i].1 && forall|j: int| 0 <= j < i ==> s[j].0@ != k by {
                    if prev.contains_key(k) {
                        assert(self@[k] == prev[k]);
                        let i = choose|i: int|
                            0 <= i < done && s[i].0@ == k && prev[k] == s[i].1 && forall|j: int| 0 <= j < i ==> s[j].0@ != k;
                        assert(0 <= i < done + 1 && s[i].0@ == k && self@[k] == s[i].1);
                    } else {
                        assert(k == key);
                        assert forall|j: int| 0 <= j < done implies s[j].0@ != k by {
                            assert(prev.contains_key(s[j].0@));
                        }
                        assert(s[done].0@ == k && self@[k] == s[done].1);
                    }
                }
                done = done + 1;
            }
        }
        proof {
            assert(done == s.len());
        }
    }

    pub fn get_template(&self, uid: &String) -> (r: Option<&Image>)
        requires
            self.wf(),
        ensures
            r matches Some(img) ==> self@.contains_key(uid@) && *img == self@[uid@],
            r is None ==> !self@.contains_key(uid@),
    {
        self.templates.get(uid)
    }

    pub fn get_all_template_ids(&self) -> (r: Vec<String>)
        requires
            self.wf(),
        ensures
            r@.len() == self@.len(),
            forall|i: int| 0 <= i < r@.len() ==> self@.contains_key(#[trigger] r@[i]@),
            forall|k: Seq<char>| self@.contains_key(k) ==> exists|i: int| 0 <= i < r@.len() && r@[i]@ == k,
            forall|i: int, j: int| 0 <= i < j < r@.len() ==> r@[i]@ != r@[j]@,
    {
        self.templates.keys()
    }

    /// Puts an operator-supplied template in the library.
    pub fn add_template(&mut self, uid: String, template: Image)
        requires
            old(self).wf(),
        ensures
            final(self).wf(),
            final(self)@ == old(self)@.insert(uid@, template),
            final(self).template_dir == old(self).template_dir,
    {
        self.templates.insert(uid, template);
    }

    /// Takes a template out of the library; absent ids are no error.
    pub fn remove_template(&mut self, uid: &String)
        requires
            old(self).wf(),
        ensures
            final(self).wf(),
            final(self)@ == old(self)@.remove(uid@),
            final(self).template_dir == old(self).template_dir,
    {
        self.templates.remove(uid);
    }

    pub fn get_template_count(&self) -> (r: usize)
        requires
            self.wf(),
        ensures
            r == self@.len(),
    {
        self.templates.len()
    }
}

proof fn lemma_successes_le(s: Seq<Outcome>)
    ensures
        successes(s) <= s.len(),
    decreases s.len(),
{
    if s.len() > 0 {
        lemma_successes_le(s.drop_first());
    }
}

} // verus!
