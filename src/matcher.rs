use vstd::prelude::*;

verus! {

/// ASCII lower case of a byte; other bytes are kept.
pub open spec fn lower(c: u8) -> u8 {
    if 65 <= c <= 90 {
        (c + 32) as u8
    } else {
        c
    }
}

/// `needle` occurs in `hay` at `i`, ignoring ASCII case.
pub open spec fn matches_at(hay: Seq<u8>, needle: Seq<u8>, i: int) -> bool {
    &&& 0 <= i
    &&& i + needle.len() <= hay.len()
    &&& forall|j: int| 0 <= j < needle.len() ==> lower(#[trigger] hay[i + j]) == lower(needle[j])
}

/// `needle` occurs somewhere in `hay`, ignoring ASCII case.
pub open spec fn contains_ci(hay: Seq<u8>, needle: Seq<u8>) -> bool {
    exists|i: int| matches_at(hay, needle, i)
}

/// Some marker of `markers` occurs in `line`, ignoring ASCII case.
pub open spec fn any_marker(line: Seq<u8>, markers: Seq<Seq<u8>>) -> bool {
    exists|k: int| 0 <= k < markers.len() && contains_ci(line, #[trigger] markers[k])
}

pub open spec fn password_marker() -> Seq<u8> {
    // "password"
    seq![112u8, 97, 115, 115, 119, 111, 114, 100]
}

pub open spec fn denied_marker() -> Seq<u8> {
    // "permission denied"
    seq![112u8, 101, 114, 109, 105, 115, 115, 105, 111, 110, 32, 100, 101, 110, 105, 101, 100]
}

fn ascii_lower(c: u8) -> (r: u8)
    ensures
        r == lower(c),
{
    if 65 <= c && c <= 90 {
        c + 32
    } else {
        c
    }
}

fn matches_here(hay: &[u8], needle: &[u8], i: usize) -> (r: bool)
    requires
        i + needle@.len() <= hay@.len(),
    ensures
        r == matches_at(hay@, needle@, i as int),
{
    let n = hay.len();
    let mut j: usize = 0;
    while j < needle.len()
        invariant
            n == hay@.len(),
            i + needle@.len() <= hay@.len(),
            j <= needle@.len(),
            forall|k: int| 0 <= k < j ==> lower(#[trigger] hay@[i + k]) == lower(needle@[k]),
        decreases needle@.len() - j,
    {
        if ascii_lower(hay[i + j]) != ascii_lower(needle[j]) {
            assert(lower(hay@[i + j as int]) != lower(needle@[j as int]));
            return false;
        }
        j = j + 1;
    }
    true
}

/// Whether `needle` occurs in `hay`, ignoring ASCII case.
pub fn contains_ignore_case(hay: &[u8], needle: &[u8]) -> (r: bool)
    ensures
        r == contains_ci(hay@, needle@),
{
    if needle.len() > hay.len() {
        return false;
    }
    let last = hay.len() - needle.len();
    let mut i: usize = 0;
    loop
        invariant
            last == hay@.len() - needle@.len(),
            i <= last,
            forall|k: int| 0 <= k < i ==> !matches_at(hay@, needle@, k),
        decreases last - i,
    {
        if matches_here(hay, needle, i) {
            return true;
        }
        if i == last {
            assert forall|k: int| !matches_at(hay@, needle@, k) by {
                if matches_at(hay@, needle@, k) {
                    assert(k <= last);
                }
            }
            return false;
        }
        i = i + 1;
    }
}

/// The markers that tell a credential prompt and a rejection apart.
#[derive(Debug, Clone)]
pub struct PromptMatcher {
    pub prompts: Vec<Vec<u8>>,
    pub rejections: Vec<Vec<u8>>,
}

/// What one diagnostic line says.
#[derive(Debug, Clone, Copy, PartialEq, Eq, Structural)]
pub enum LineKind {
    /// The peer asks for the secret.
    Prompt,
    /// The peer refused the credential.
    Rejection,
    /// Neither.
    Other,
}

pub open spec fn marker_views(v: Seq<Vec<u8>>) -> Seq<Seq<u8>> {
    v.map_values(|m: Vec<u8>| m@)
}

/// A rejection marker wins over a prompt marker on the same line.
pub open spec fn classify(line: Seq<u8>, prompts: Seq<Seq<u8>>, rejections: Seq<Seq<u8>>) -> LineKind {
    if any_marker(line, rejections) {
        LineKind::Rejection
    } else if any_marker(line, prompts) {
        LineKind::Prompt
    } else {
        LineKind::Other
    }
}

fn any_of(line: &[u8], markers: &Vec<Vec<u8>>) -> (r: bool)
    ensures
        r == any_marker(line@, marker_views(markers@)),
{
    let ghost ms = marker_views(markers@);
    let mut k: usize = 0;
    while k < markers.len()
        invariant
            k <= markers@.len(),
            ms == marker_views(markers@),
            forall|q: int| 0 <= q < k ==> !contains_ci(line@, #[trigger] ms[q]),
        decreases markers@.len() - k,
    {
        if contains_ignore_case(line, markers[k].as_slice()) {
            assert(contains_ci(line@, ms[k as int]));
            return true;
        }
        k = k + 1;
    }
    false
}

impl PromptMatcher {
    pub open spec fn prompt_markers(&self) -> Seq<Seq<u8>> {
        marker_views(self.prompts@)
    }

    pub open spec fn rejection_markers(&self) -> Seq<Seq<u8>> {
        marker_views(self.rejections@)
    }

    /// A matcher over the given markers.
    pub fn new(prompts: Vec<Vec<u8>>, rejections: Vec<Vec<u8>>) -> (r: PromptMatcher)
        ensures
            r.prompts@ == prompts@,
            r.rejections@ == rejections@,
    {
        PromptMatcher { prompts, rejections }
    }

    /// Recognises `password` as a prompt and `permission denied` as a rejection.
    pub fn standard() -> (r: PromptMatcher)
        ensures
            r.prompt_markers() == seq![password_marker()],
            r.rejection_markers() == seq![denied_marker()],
    {
        let p: Vec<u8> = vec![112u8, 97, 115, 115, 119, 111, 114, 100];
        let d: Vec<u8> = vec![112u8, 101, 114, 109, 105, 115, 115, 105, 111, 110, 32, 100, 101, 110, 105, 101, 100];
        proof {
            assert(p@ =~= password_marker());
            assert(d@ =~= denied_marker());
        }
        let r = PromptMatcher { prompts: vec![p], rejections: vec![d] };
        proof {
            assert(r.prompt_markers() =~= seq![password_marker()]);
            assert(r.rejection_markers() =~= seq![denied_marker()]);
        }
        r
    }

    /// Whether `text` carries a rejection marker.
    pub fn is_rejection(&self, text: &[u8]) -> (r: bool)
        ensures
            r == any_marker(text@, self.rejection_markers()),
    {
        any_of(text, &self.rejections)
    }

    /// What a diagnostic line says; rejection is tested first.
    pub fn classify_line(&self, line: &[u8]) -> (r: LineKind)
        ensures
            r == classify(line@, self.prompt_markers(), self.rejection_markers()),
    {
        if any_of(line, &self.rejections) {
            LineKind::Rejection
        } else if any_of(line, &self.prompts) {
            LineKind::Prompt
        } else {
            LineKind::Other
        }
    }
}

} // verus!
