use vstd::prelude::*;
use crate::image::Image;
use crate::item::Item;

verus! {

/// Match scores are fixed point: this many units make a score of one.
pub const SCORE_SCALE: u32 = 1_000_000;

/// The default acceptance threshold, 0.8.
pub const DEFAULT_THRESHOLD: u32 = 800_000;

/// A rectangle in frame coordinates: top-left corner and size.
#[derive(Debug, Clone, Copy, PartialEq, Eq, Structural)]
pub struct Rect {
    pub x: i32,
    pub y: i32,
    pub width: i32,
    pub height: i32,
}

/// Where one template correlates best with a frame, and how well.
#[derive(Debug, Clone, Copy, PartialEq, Eq, Structural)]
pub struct BestMatch {
    pub x: i32,
    pub y: i32,
    pub score: u32,
}

/// One template's best match, with the template's id and size.
pub struct Candidate {
    pub item_uid: String,
    pub width: i32,
    pub height: i32,
    pub best: BestMatch,
}

/// An accepted match: where, which item, and the score.
pub struct Detection {
    pub rect: Rect,
    pub item_uid: String,
    pub confidence: u32,
}

/// A match is accepted when its score reaches the threshold.
pub open spec fn accepted(score: u32, threshold: u32) -> bool {
    score >= threshold
}

pub fn accepts(score: u32, threshold: u32) -> (r: bool)
    ensures
        r == accepted(score, threshold),
{
    score >= threshold
}

/// The rectangle a template of size `width` by `height` covers at a match.
pub open spec fn rect_at(best: BestMatch, width: i32, height: i32) -> Rect {
    Rect { x: best.x, y: best.y, width, height }
}

/// The accepted candidates, in order, as rectangle, id and score.
pub open spec fn detections_of(c: Seq<Candidate>, threshold: u32) -> Seq<(Rect, Seq<char>, u32)>
    decreases c.len(),
{
    if c.len() == 0 {
        seq![]
    } else {
        let prev = detections_of(c.drop_last(), threshold);
        let last = c.last();
        if accepted(last.best.score, threshold) {
            prev.push((rect_at(last.best, last.width, last.height), last.item_uid@, last.best.score))
        } else {
            prev
        }
    }
}

pub open spec fn detection_view(d: Detection) -> (Rect, Seq<char>, u32) {
    (d.rect, d.item_uid@, d.confidence)
}

/// Keeps the candidates whose score reaches `threshold`, at most one per
/// template, in the order given.
pub fn select_detections(candidates: &Vec<Candidate>, threshold: u32) -> (r: Vec<Detection>)
    ensures
        r@.map_values(|d: Detection| detection_view(d)) == detections_of(candidates@, threshold),
{
    let mut r: Vec<Detection> = Vec::new();
    let mut i: usize = 0;
    while i < candidates.len()
        invariant
            i <= candidates@.len(),
            r@.map_values(|d: Detection| detection_view(d)) == detections_of(candidates@.take(i as int), threshold),
        decreases candidates@.len() - i,
    {
        let c = &candidates[i];
        let ghost prev = r@;
        assert(candidates@.take(i as int + 1).drop_last() =~= candidates@.take(i as int));
        if accepts(c.best.score, threshold) {
            let d = Detection {
                rect: Rect { x: c.best.x, y: c.best.y, width: c.width, height: c.height },
                item_uid: c.item_uid.clone(),
                confidence: c.best.score,
            };
            r.push(d);
            assert(r@.map_values(|d: Detection| detection_view(d)) =~= prev.map_values(
                |d: Detection| detection_view(d),
            ).push(detection_view(d)));
        }
        i = i + 1;
    }
    assert(candidates@.take(candidates@.len() as int) =~= candidates@);
    r
}

/// Finds known templates in frames, against a threshold that can change
/// between calls.
pub struct TemplateMatcher {
    pub threshold: u32,
    pub has_templates: bool,
}

impl TemplateMatcher {
    pub fn new(threshold: u32) -> (r: Self)
        ensures
            r.threshold == threshold,
            !r.has_templates,
    {
        TemplateMatcher { threshold, has_templates: false }
    }

    /// Records that a template library is attached.
    pub fn set_template_manager(&mut self)
        ensures
            final(self).has_templates,
            final(self).threshold == old(self).threshold,
    {
        self.has_templates = true;
    }

    pub fn set_threshold(&mut self, threshold: u32)
        ensures
            final(self).threshold == threshold,
            final(self).has_templates == old(self).has_templates,
    {
        self.threshold = threshold;
    }

    /// The detections among the best matches of each template; none while
    /// no library is attached.
    pub fn match_templates(&self, candidates: &Vec<Candidate>) -> (r: Vec<Detection>)
        ensures
            !self.has_templates ==> r@.len() == 0,
            self.has_templates ==> r@.map_values(|d: Detection| detection_view(d)) == detections_of(
                candidates@,
                self.threshold,
            ),
    {
        if !self.has_templates {
            return Vec::new();
        }
        select_detections(candidates, self.threshold)
    }
}

/// Finds items in frames from a list of (template, item) pairs.
pub struct ItemDetector {
    pub templates: Vec<(Image, Item)>,
    pub threshold: u32,
}

/// The accepted matches among the first `n` templates, as rectangle and
/// index of the template.
pub open spec fn item_detections(
    templates: Seq<(Image, Item)>,
    best: Seq<Option<BestMatch>>,
    threshold: u32,
    n: int,
) -> Seq<(Rect, int)>
    decreases n,
{
    if n <= 0 {
        seq![]
    } else {
        let prev = item_detections(templates, best, threshold, n - 1);
        match best[n - 1] {
            Some(b) => if accepted(b.score, threshold) {
                prev.push(
                    (rect_at(b, templates[n - 1].0.width as i32, templates[n - 1].0.height as i32), n - 1),
                )
            } else {
                prev
            },
            None => prev,
        }
    }
}

impl ItemDetector {
    pub fn new(threshold: u32) -> (r: Self)
        ensures
            r.threshold == threshold,
            r.templates@.len() == 0,
    {
        ItemDetector { templates: Vec::new(), threshold }
    }

    pub fn add_template(&mut self, template: Image, item: Item)
        ensures
            final(self).templates@ == old(self).templates@.push((template, item)),
            final(self).threshold == old(self).threshold,
    {
        self.templates.push((template, item));
    }

    /// The items found in a frame, given the best match of each template
    /// (`None` where matching failed), in template order.
    pub fn detect_items(&self, best: &Vec<Option<BestMatch>>) -> (r: Vec<(Rect, &Item)>)
        requires
            best@.len() == self.templates@.len(),
        ensures
            r@.len() == item_detections(self.templates@, best@, self.threshold, best@.len() as int).len(),
            forall|j: int|
                0 <= j < r@.len() ==> {
                    let (rect, idx) = #[trigger] item_detections(
                        self.templates@,
                        best@,
                        self.threshold,
                        best@.len() as int,
                    )[j];
                    r@[j].0 == rect && *r@[j].1 == self.templates@[idx].1
                },
    {
        let mut r: Vec<(Rect, &Item)> = Vec::new();
        let mut i: usize = 0;
        while i < best.len()
            invariant
                i <= best@.len(),
                best@.len() == self.templates@.len(),
                r@.len() == item_detections(self.templates@, best@, self.threshold, i as int).len(),
                forall|j: int|
                    0 <= j < r@.len() ==> {
                        let (rect, idx) = #[trigger] item_detections(
                            self.templates@,
                            best@,
                            self.threshold,
                            i as int,
                        )[j];
                        r@[j].0 == rect && *r@[j].1 == self.templates@[idx].1
                    },
            decreases best@.len() - i,
        {
            let ghost prev = item_detections(self.templates@, best@, self.threshold, i as int);
            assert(item_detections(self.templates@, best@, self.threshold, i as int + 1) == match best@[i as int] {
                Some(b) => if accepted(b.score, self.threshold) {
                    prev.push(
                        (
                            rect_at(b, self.templates@[i as int].0.width as i32, self.templates@[i as int].0.height as i32),
                            i as int,
                        ),
                    )
                } else {
                    prev
                },
                None => prev,
            });
            match best[i] {
                Some(b) => {
                    if accepts(b.score, self.threshold) {
                        let t = &self.templates[i];
                        let rect = Rect { x: b.x, y: b.y, width: t.0.width as i32, height: t.0.height as i32 };
                        r.push((rect, &t.1));
                    }
                },
                None => {},
            }
            i = i + 1;
        }
        r
    }
}

} // verus!
