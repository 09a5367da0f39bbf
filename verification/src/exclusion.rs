//! The path exclusion table: which (method, path) pairs bypass
//! authentication.
//!
//! A template is a `/`-separated list of segments; a `{name}` segment
//! matches any single non-empty concrete segment, a literal segment matches
//! itself only.  Methods without registered templates never exclude.

use vstd::prelude::*;
use crate::text::spec_split;
use crate::text::split_on;
use crate::text::str_eq;

verus! {

/// An HTTP method, as far as the exclusion table distinguishes them.
#[derive(Clone, Copy, PartialEq, Eq, Structural, Debug)]
pub enum HttpMethod {
    Get,
    Post,
    Put,
    Patch,
    Delete,
    Other,
}

/// One segment of a compiled path template.
pub enum Segment {
    Literal(String),
    Param,
}

/// Mathematical model of a `Segment`.
pub enum SegmentView {
    Literal(Seq<char>),
    Param,
}

impl View for Segment {
    type V = SegmentView;

    open spec fn view(&self) -> SegmentView {
        match self {
            Segment::Literal(s) => SegmentView::Literal(s@),
            Segment::Param => SegmentView::Param,
        }
    }
}

/// Whether a template segment spelling denotes a parameter: `{name}`.
pub open spec fn is_param_seg(s: Seq<char>) -> bool {
    s.len() >= 2 && s[0] == '{' && s[s.len() - 1] == '}'
}

/// The compiled form of a template string: its `/`-separated segments,
/// parameters recognized by their braces.
pub open spec fn spec_template_of(s: Seq<char>) -> Seq<SegmentView> {
    spec_split(s, '/').map_values(
        |seg: Seq<char>|
            if is_param_seg(seg) {
                SegmentView::Param
            } else {
                SegmentView::Literal(seg)
            },
    )
}

/// Whether one template segment matches one concrete segment: a literal
/// matches itself, a parameter matches any non-empty segment.
pub open spec fn spec_seg_matches(t: SegmentView, s: Seq<char>) -> bool {
    match t {
        SegmentView::Literal(l) => s == l,
        SegmentView::Param => s.len() > 0,
    }
}

/// Whether a template matches a concrete path: segment lists of equal
/// length, matching position by position.
pub open spec fn spec_template_matches(t: Seq<SegmentView>, path: Seq<char>) -> bool {
    let segs = spec_split(path, '/');
    t.len() == segs.len() && (forall|i: int|
        0 <= i < t.len() ==> spec_seg_matches(#[trigger] t[i], segs[i]))
}

/// A compiled path template.
pub struct Template {
    pub segments: Vec<Segment>,
}

impl View for Template {
    type V = Seq<SegmentView>;

    open spec fn view(&self) -> Seq<SegmentView> {
        self.segments@.map_values(|s: Segment| s@)
    }
}

/// Whether a template segment spelling denotes a parameter.
fn is_param(seg: &str) -> (r: bool)
    ensures
        r == is_param_seg(seg@),
{
    let n = seg.unicode_len();
    n >= 2 && seg.get_char(0) == '{' && seg.get_char(n - 1) == '}'
}

/// Compiles a template string.
pub fn parse_template(s: &str) -> (r: Template)
    ensures
        r@ == spec_template_of(s@),
{
    let parts = split_on(s, '/');
    let mut segments: Vec<Segment> = Vec::new();
    let n = parts.len();
    let mut i: usize = 0;
    proof {
        assert(parts@.map_values(|p: String| p@) == spec_split(s@, '/'));
    }
    while i < n
        invariant
            i <= n,
            n == parts@.len(),
            parts@.map_values(|p: String| p@) == spec_split(s@, '/'),
            segments@.map_values(|g: Segment| g@) == spec_template_of(s@).take(i as int),
        decreases n - i,
    {
        let ghost prev = segments@.map_values(|g: Segment| g@);
        proof {
            assert(spec_split(s@, '/')[i as int] == parts@[i as int]@);
            assert(spec_template_of(s@)[i as int] == (if is_param_seg(parts@[i as int]@) {
                SegmentView::Param
            } else {
                SegmentView::Literal(parts@[i as int]@)
            }));
        }
        if is_param(parts[i].as_str()) {
            segments.push(Segment::Param);
        } else {
            segments.push(Segment::Literal(parts[i].clone()));
        }
        proof {
            assert(segments@.map_values(|g: Segment| g@) =~= prev.push(
                spec_template_of(s@)[i as int],
            ));
            assert(spec_template_of(s@).take(i + 1) =~= prev.push(spec_template_of(s@)[i as int]));
        }
        i = i + 1;
    }
    proof {
        assert(spec_template_of(s@).take(n as int) =~= spec_template_of(s@));
    }
    Template { segments }
}

/// Whether the template matches the already-split path segments.
fn template_matches(t: &Template, segs: &Vec<String>) -> (r: bool)
    ensures
        r == (t@.len() == segs@.len() && (forall|i: int|
            0 <= i < t@.len() ==> spec_seg_matches(#[trigger] t@[i], segs@[i]@))),
{
    let n = t.segments.len();
    if n != segs.len() {
        return false;
    }
    let mut i: usize = 0;
    while i < n
        invariant
            i <= n,
            n == t@.len(),
            n == segs@.len(),
            forall|j: int| 0 <= j < i ==> spec_seg_matches(#[trigger] t@[j], segs@[j]@),
        decreases n - i,
    {
        let ok = match &t.segments[i] {
            Segment::Literal(l) => str_eq(l.as_str(), segs[i].as_str()),
            Segment::Param => segs[i].as_str().unicode_len() > 0,
        };
        proof {
            assert(t@[i as int] == t.segments@[i as int]@);
        }
        if !ok {
            return false;
        }
        i = i + 1;
    }
    true
}

/// The exclusion table: per method, the templates that bypass
/// authentication.
pub struct ExcludedPaths {
    pub post: Vec<Template>,
    pub get: Vec<Template>,
    pub put: Vec<Template>,
    pub patch: Vec<Template>,
    pub delete: Vec<Template>,
}

impl ExcludedPaths {
    /// The templates registered for a method; unknown methods have none.
    pub open spec fn spec_templates(&self, m: HttpMethod) -> Seq<Seq<SegmentView>> {
        match m {
            HttpMethod::Get => self.get@.map_values(|t: Template| t@),
            HttpMethod::Post => self.post@.map_values(|t: Template| t@),
            HttpMethod::Put => self.put@.map_values(|t: Template| t@),
            HttpMethod::Patch => self.patch@.map_values(|t: Template| t@),
            HttpMethod::Delete => self.delete@.map_values(|t: Template| t@),
            HttpMethod::Other => Seq::empty(),
        }
    }

    /// Whether the (method, path) pair bypasses authentication.
    pub open spec fn spec_excluded(&self, m: HttpMethod, path: Seq<char>) -> bool {
        exists|i: int|
            0 <= i < self.spec_templates(m).len() && spec_template_matches(
                #[trigger] self.spec_templates(m)[i],
                path,
            )
    }

    /// The standard table: login, verification and upload skip
    /// authentication, as do the public post listings and detail reads.
    pub fn new() -> (r: ExcludedPaths)
        ensures
            r.spec_templates(HttpMethod::Post) == seq![
                spec_template_of("/auth/login"@),
                spec_template_of("/auth/verify"@),
                spec_template_of("/upload"@),
            ],
            r.spec_templates(HttpMethod::Get) == seq![
                spec_template_of("/posts"@),
                spec_template_of("/posts/{post_id}"@),
                spec_template_of("/posts/user/{user_id}"@),
            ],
            r.spec_templates(HttpMethod::Put) == Seq::<Seq<SegmentView>>::empty(),
            r.spec_templates(HttpMethod::Patch) == Seq::<Seq<SegmentView>>::empty(),
            r.spec_templates(HttpMethod::Delete) == Seq::<Seq<SegmentView>>::empty(),
    {
        let mut post: Vec<Template> = Vec::new();
        post.push(parse_template("/auth/login"));
        post.push(parse_template("/auth/verify"));
        post.push(parse_template("/upload"));
        let mut get: Vec<Template> = Vec::new();
        get.push(parse_template("/posts"));
        get.push(parse_template("/posts/{post_id}"));
        get.push(parse_template("/posts/user/{user_id}"));
        let r = ExcludedPaths { post, get, put: Vec::new(), patch: Vec::new(), delete: Vec::new() };
        proof {
            assert(r.spec_templates(HttpMethod::Post) =~= seq![
                spec_template_of("/auth/login"@),
                spec_template_of("/auth/verify"@),
                spec_template_of("/upload"@),
            ]);
            assert(r.spec_templates(HttpMethod::Get) =~= seq![
                spec_template_of("/posts"@),
                spec_template_of("/posts/{post_id}"@),
                spec_template_of("/posts/user/{user_id}"@),
            ]);
            assert(r.spec_templates(HttpMethod::Put) =~= Seq::<Seq<SegmentView>>::empty());
            assert(r.spec_templates(HttpMethod::Patch) =~= Seq::<Seq<SegmentView>>::empty());
            assert(r.spec_templates(HttpMethod::Delete) =~= Seq::<Seq<SegmentView>>::empty());
        }
        r
    }

    /// Whether the (method, path) pair bypasses authentication.
    pub fn is_excluded(&self, method: HttpMethod, path: &str) -> (r: bool)
        ensures
            r == self.spec_excluded(method, path@),
    {
        let templates: &Vec<Template> = match method {
            HttpMethod::Get => &self.get,
            HttpMethod::Post => &self.post,
            HttpMethod::Put => &self.put,
            HttpMethod::Patch => &self.patch,
            HttpMethod::Delete => &self.delete,
            HttpMethod::Other => {
                return false;
            },
        };
        let segs = split_on(path, '/');
        let n = templates.len();
        let mut i: usize = 0;
        while i < n
            invariant
                i <= n,
                n == templates@.len(),
                templates@.map_values(|t: Template| t@) == self.spec_templates(method),
                segs@.map_values(|p: String| p@) == spec_split(path@, '/'),
                forall|j: int|
                    0 <= j < i ==> !spec_template_matches(
                        #[trigger] self.spec_templates(method)[j],
                        path@,
                    ),
            decreases n - i,
        {
            let m = template_matches(&templates[i], &segs);
            proof {
                assert(templates@[i as int]@ == self.spec_templates(method)[i as int]);
                assert(segs@.len() == spec_split(path@, '/').len());
                assert forall|k: int| 0 <= k < segs@.len() implies segs@[k]@ == spec_split(
                    path@,
                    '/',
                )[k] by {
                    assert(segs@.map_values(|p: String| p@)[k] == segs@[k]@);
                }
            }
            if m {
                proof {
                    assert(spec_template_matches(self.spec_templates(method)[i as int], path@));
                }
                return true;
            }
            i = i + 1;
        }
        false
    }
}

} // verus!
