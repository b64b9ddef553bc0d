//! The headers of one request, in the order they arrived.
use vstd::prelude::*;
use crate::text::{all_visible, is_visible_text, names_equal, opt_view, same_name};

verus! {

/// One header as the model sees it: its name, and its value where that value
/// is readable text.
pub type HeaderView = (Seq<char>, Option<Seq<char>>);

/// What `lookup` finds under `name`: `None` when no header has that name,
/// `Some(v)` for the first header that has it, `v` being its value if readable.
pub open spec fn lookup(hs: Seq<HeaderView>, name: Seq<char>) -> Option<Option<Seq<char>>>
    decreases hs.len(),
{
    if hs.len() == 0 {
        None
    } else if same_name(hs[0].0, name) {
        Some(hs[0].1)
    } else {
        lookup(hs.drop_first(), name)
    }
}

/// A header named `name` is present, whatever its value.
pub open spec fn has_header(hs: Seq<HeaderView>, name: Seq<char>) -> bool {
    lookup(hs, name) is Some
}

/// The readable value of the first header named `name`, if there is one.
pub open spec fn header_text(hs: Seq<HeaderView>, name: Seq<char>) -> Option<Seq<char>> {
    match lookup(hs, name) {
        Some(Some(v)) => Some(v),
        _ => None,
    }
}

/// The headers with readable values, as name/value pairs, in order.
pub open spec fn readable_pairs(hs: Seq<HeaderView>) -> Seq<(Seq<char>, Seq<char>)>
    decreases hs.len(),
{
    if hs.len() == 0 {
        Seq::empty()
    } else {
        let rest = readable_pairs(hs.drop_last());
        match hs.last().1 {
            Some(v) => rest.push((hs.last().0, v)),
            None => rest,
        }
    }
}

pub open spec fn pair_view(p: (String, String)) -> (Seq<char>, Seq<char>) {
    (p.0@, p.1@)
}

pub open spec fn entry_view(e: (String, Option<String>)) -> HeaderView {
    (e.0@, opt_view(e.1))
}

/// Request headers in arrival order. Names may repeat; every header keeps its
/// place. A value that is not readable text (tab and printable ASCII only) is
/// kept as unreadable, so lookups see the header but not its value.
pub struct RequestHeaders {
    entries: Vec<(String, Option<String>)>,
}

impl View for RequestHeaders {
    type V = Seq<HeaderView>;

    closed spec fn view(&self) -> Seq<HeaderView> {
        self.entries@.map_values(|e: (String, Option<String>)| entry_view(e))
    }
}

impl RequestHeaders {
    /// Every readable value holds only tab and printable ASCII.
    pub open spec fn wf(&self) -> bool {
        forall|i: int|
            0 <= i < self@.len() && (#[trigger] self@[i]).1 is Some ==> all_visible(
                self@[i].1->0,
            )
    }

    pub fn new() -> (r: RequestHeaders)
        ensures
            r@ == Seq::<HeaderView>::empty(),
            r.wf(),
    {
        let r = RequestHeaders { entries: Vec::new() };
        assert(r@ =~= Seq::<HeaderView>::empty());
        r
    }

    /// Appends a header. `value` is `None` where the raw value was not text;
    /// a text value with a character outside tab and printable ASCII is kept
    /// as unreadable too.
    pub fn push(&mut self, name: &str, value: Option<&str>)
        requires
            old(self).wf(),
        ensures
            final(self).wf(),
            final(self)@ == old(self)@.push(
                (
                    name@,
                    match value {
                        Some(v) => if all_visible(v@) {
                            Some(v@)
                        } else {
                            None
                        },
                        None => None,
                    },
                ),
            ),
    {
        let stored = match value {
            Some(v) => if is_visible_text(v) {
                Some(String::from_str(v))
            } else {
                None
            },
            None => None,
        };
        let entry = (String::from_str(name), stored);
        self.entries.push(entry);
        assert(self@ =~= old(self)@.push(entry_view(entry)));
    }

    pub fn len(&self) -> (r: usize)
        ensures
            r == self@.len(),
    {
        self.entries.len()
    }

    /// The position of the first header named `name` (ASCII case ignored).
    fn find(&self, name: &str) -> (r: Option<usize>)
        ensures
            match r {
                None => lookup(self@, name@) is None,
                Some(i) => i < self@.len() && lookup(self@, name@) == Some(self@[i as int].1),
            },
    {
        let n = self.entries.len();
        let mut i: usize = 0;
        assert(self@.skip(0) =~= self@);
        while i < n
            invariant
                n == self@.len(),
                i <= n,
                lookup(self@, name@) == lookup(self@.skip(i as int), name@),
            decreases n - i,
        {
            assert(self@[i as int] == entry_view(self.entries@[i as int]));
            if names_equal(self.entries[i].0.as_str(), name) {
                return Some(i);
            }
            assert(self@.skip(i as int).drop_first() =~= self@.skip(i + 1));
            i = i + 1;
        }
        None
    }

    /// Whether a header named `name` is present, readable or not.
    pub fn contains(&self, name: &str) -> (r: bool)
        ensures
            r == has_header(self@, name@),
    {
        self.find(name).is_some()
    }

    /// The readable value of the first header named `name`.
    pub fn get_str(&self, name: &str) -> (r: Option<String>)
        ensures
            opt_view(r) == header_text(self@, name@),
    {
        match self.find(name) {
            Some(i) => {
                assert(self@[i as int] == entry_view(self.entries@[i as int]));
                match &self.entries[i].1 {
                    Some(v) => Some(v.clone()),
                    None => None,
                }
            },
            None => None,
        }
    }

    /// The headers with readable values, as name/value pairs, in arrival order.
    pub fn readable_pairs(&self) -> (r: Vec<(String, String)>)
        ensures
            r@.map_values(|p: (String, String)| pair_view(p)) == readable_pairs(self@),
    {
        let n = self.entries.len();
        let mut out: Vec<(String, String)> = Vec::new();
        let mut i: usize = 0;
        while i < n
            invariant
                n == self@.len(),
                i <= n,
                out@.map_values(|p: (String, String)| pair_view(p)) == readable_pairs(
                    self@.take(i as int),
                ),
            decreases n - i,
        {
            let ghost before = out@;
            assert(self@.take(i + 1).drop_last() =~= self@.take(i as int));
            assert(self@.take(i + 1).last() == entry_view(self.entries@[i as int]));
            match &self.entries[i].1 {
                Some(v) => {
                    out.push((self.entries[i].0.clone(), v.clone()));
                    assert(out@.map_values(|p: (String, String)| pair_view(p)) =~= before.map_values(
                        |p: (String, String)| pair_view(p),
                    ).push(pair_view(out@.last())));
                },
                None => {},
            }
            i = i + 1;
        }
        assert(self@.take(n as int) =~= self@);
        out
    }
}

} // verus!
