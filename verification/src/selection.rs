//! Which entries of a container a request selects.

use vstd::prelude::*;
use crate::decimal::{is_digit, parse_index_in, spelled_index, unsigned_part};
use crate::text::chars_of;

verus! {

/// Why a request selects nothing.
#[derive(Clone, Copy, Debug, PartialEq, Eq, Structural)]
pub enum SelectionError {
    /// The container holds no entry.
    EmptyContainer,
    /// The request names this index, and the container has no such entry.
    IndexOutOfBounds(usize),
    /// The range ends beyond the last entry.
    RangeOutOfBounds,
    /// The range starts after its end.
    InvalidRange,
    /// The range text is not of the form `start-end`.
    InvalidRangeFormat,
}

/// A request for some entries of a container.
#[derive(Debug, PartialEq, Eq)]
pub enum SelectionRequest {
    /// The entry at one index.
    Single(usize),
    /// The entries at these indices, in this order, repeated where an index is.
    List(Vec<usize>),
    /// The entries from `start` to `end`, both included, written `start-end`.
    Range(String),
    /// Every entry.
    All,
}

/// The mathematical content of a [`SelectionRequest`].
pub enum Selection {
    Single(usize),
    List(Seq<usize>),
    Range(Seq<char>),
    All,
}

impl View for SelectionRequest {
    type V = Selection;

    open spec fn view(&self) -> Selection {
        match self {
            SelectionRequest::Single(index) => Selection::Single(*index),
            SelectionRequest::List(indices) => Selection::List(indices@),
            SelectionRequest::Range(text) => Selection::Range(text@),
            SelectionRequest::All => Selection::All,
        }
    }
}

/// Whether `text` is a range text with its `-` at position `dash`: an index
/// before it and an index after it.
pub open spec fn splits_range(text: Seq<char>, dash: int) -> bool {
    &&& 0 <= dash < text.len()
    &&& text[dash] == '-'
    &&& spelled_index(text.subrange(0, dash)) is Some
    &&& spelled_index(text.subrange(dash + 1, text.len() as int)) is Some
}

/// The two bounds that a range text `start-end` spells, if it is one.
pub open spec fn range_bounds(text: Seq<char>) -> Option<(usize, usize)> {
    if exists|dash: int| splits_range(text, dash) {
        let dash = choose|dash: int| splits_range(text, dash);
        Some(
            (
                spelled_index(text.subrange(0, dash))->0,
                spelled_index(text.subrange(dash + 1, text.len() as int))->0,
            ),
        )
    } else {
        None
    }
}

/// Whether `indices[k]` is the first of `indices` that a container of `total`
/// entries does not have.
pub open spec fn is_first_out_of_bounds(indices: Seq<usize>, total: usize, k: int) -> bool {
    &&& 0 <= k < indices.len()
    &&& indices[k] >= total
    &&& forall|j: int| 0 <= j < k ==> indices[j] < total
}

/// The first of `indices` that a container of `total` entries does not have.
pub open spec fn first_out_of_bounds(indices: Seq<usize>, total: usize) -> Option<usize> {
    if exists|k: int| is_first_out_of_bounds(indices, total, k) {
        Some(indices[choose|k: int| is_first_out_of_bounds(indices, total, k)])
    } else {
        None
    }
}

/// The indices `first, first + 1, ..` up to `last`.
pub open spec fn ascending(first: usize, last: usize) -> Seq<usize> {
    Seq::new((last - first + 1) as nat, |i: int| (first + i) as usize)
}

/// What a selection yields from a container that has `total` entries, the
/// empty container aside.
pub open spec fn selected(selection: Selection, total: usize) -> Result<Seq<usize>, SelectionError> {
    match selection {
        Selection::All => Ok(Seq::new(total as nat, |i: int| i as usize)),
        Selection::Range(text) => match range_bounds(text) {
            None => Err(SelectionError::InvalidRangeFormat),
            Some((start, end)) => if start > end {
                Err(SelectionError::InvalidRange)
            } else if end >= total {
                Err(SelectionError::RangeOutOfBounds)
            } else {
                Ok(ascending(start, end))
            },
        },
        Selection::List(indices) => match first_out_of_bounds(indices, total) {
            Some(index) => Err(SelectionError::IndexOutOfBounds(index)),
            None => Ok(indices),
        },
        Selection::Single(index) => if index >= total {
            Err(SelectionError::IndexOutOfBounds(index))
        } else {
            Ok(seq![index])
        },
    }
}

/// Whether a selection asks for nothing at all: a list without indices.
pub open spec fn asks_nothing(selection: Selection) -> bool {
    selection matches Selection::List(indices) && indices.len() == 0
}

/// The indices that a selection resolves to in a container of `total`
/// entries, or the reason why it resolves to none. An empty container fails
/// every selection that asks for anything, before the selection is looked at.
pub open spec fn resolution(selection: Selection, total: usize) -> Result<
    Seq<usize>,
    SelectionError,
> {
    if total == 0 && !asks_nothing(selection) {
        Err(SelectionError::EmptyContainer)
    } else {
        selected(selection, total)
    }
}

/// The outcome of a resolution, with the indices as a sequence.
pub open spec fn outcome(r: Result<Vec<usize>, SelectionError>) -> Result<
    Seq<usize>,
    SelectionError,
> {
    match r {
        Ok(indices) => Ok(indices@),
        Err(e) => Err(e),
    }
}

/// A text that spells an index holds no `-`.
pub proof fn lemma_index_text_has_no_dash(text: Seq<char>, i: int)
    requires
        spelled_index(text) is Some,
        0 <= i < text.len(),
    ensures
        text[i] != '-',
{
    let digits = unsigned_part(text);
    if text[0] == '+' {
        if i > 0 {
            assert(is_digit(digits[i - 1]));
        }
    } else {
        assert(is_digit(digits[i]));
    }
}

/// A range text has its `-` at one position only.
pub proof fn lemma_range_split_unique(text: Seq<char>, a: int, b: int)
    requires
        splits_range(text, a),
        splits_range(text, b),
    ensures
        a == b,
{
    if a < b {
        let head = text.subrange(0, b);
        lemma_index_text_has_no_dash(head, a);
    } else if b < a {
        let head = text.subrange(0, a);
        lemma_index_text_has_no_dash(head, b);
    }
}

/// The bounds of a range text are the two indices around its `-`.
pub proof fn lemma_range_bounds_at(text: Seq<char>, dash: int)
    requires
        splits_range(text, dash),
    ensures
        range_bounds(text) == Some(
            (
                spelled_index(text.subrange(0, dash))->0,
                spelled_index(text.subrange(dash + 1, text.len() as int))->0,
            ),
        ),
{
    let chosen = choose|d: int| splits_range(text, d);
    lemma_range_split_unique(text, chosen, dash);
}

/// Reads the two bounds of a range text `start-end`.
pub fn parse_range(text: &str) -> (bounds: Option<(usize, usize)>)
    ensures
        bounds == range_bounds(text@),
{
    let chars = chars_of(text);
    let n = chars.len();
    let mut dash: usize = 0;
    while dash < n && chars[dash] != '-'
        invariant
            dash <= n,
            n == chars@.len(),
            forall|j: int| 0 <= j < dash ==> chars@[j] != '-',
        decreases n - dash,
    {
        dash += 1;
    }
    if dash == n {
        return None;
    }
    let start = parse_index_in(&chars, 0, dash);
    let end = parse_index_in(&chars, dash + 1, n);
    match (start, end) {
        (Some(start), Some(end)) => {
            proof {
                lemma_range_bounds_at(chars@, dash as int);
            }
            Some((start, end))
        },
        _ => {
            assert forall|d: int| !splits_range(chars@, d) by {
                if splits_range(chars@, d) && d > dash {
                    let head = chars@.subrange(0, d);
                    lemma_index_text_has_no_dash(head, dash as int);
                }
            }
            None
        },
    }
}

/// Resolves a request against a container of `total_entries` entries: the
/// indices to convert, in the order in which they are to be converted.
pub fn resolve(request: &SelectionRequest, total_entries: usize) -> (r: Result<
    Vec<usize>,
    SelectionError,
>)
    ensures
        outcome(r) == resolution(request@, total_entries),
{
    match request {
        SelectionRequest::All => {
            if total_entries == 0 {
                return Err(SelectionError::EmptyContainer);
            }
            let mut indices: Vec<usize> = Vec::new();
            let mut i: usize = 0;
            while i < total_entries
                invariant
                    i <= total_entries,
                    indices@ == Seq::new(i as nat, |k: int| k as usize),
                decreases total_entries - i,
            {
                indices.push(i);
                i += 1;
            }
            Ok(indices)
        },
        SelectionRequest::Range(text) => {
            if total_entries == 0 {
                return Err(SelectionError::EmptyContainer);
            }
            match parse_range(text.as_str()) {
                None => Err(SelectionError::InvalidRangeFormat),
                Some((start, end)) => {
                    if start > end {
                        Err(SelectionError::InvalidRange)
                    } else if end >= total_entries {
                        Err(SelectionError::RangeOutOfBounds)
                    } else {
                        let mut indices: Vec<usize> = Vec::new();
                        let mut i: usize = start;
                        while i <= end
                            invariant
                                start <= i <= end + 1,
                                end < total_entries,
                                indices@ == Seq::new(
                                    (i - start) as nat,
                                    |k: int| (start + k) as usize,
                                ),
                            decreases end + 1 - i,
                        {
                            indices.push(i);
                            i += 1;
                        }
                        Ok(indices)
                    }
                },
            }
        },
        SelectionRequest::List(list) => {
            if list.len() == 0 {
                assert(list@ =~= Seq::<usize>::empty());
                return Ok(Vec::new());
            }
            if total_entries == 0 {
                return Err(SelectionError::EmptyContainer);
            }
            let mut k: usize = 0;
            while k < list.len()
                invariant
                    k <= list@.len(),
                    total_entries > 0,
                    request@ == Selection::List(list@),
                    forall|j: int| 0 <= j < k ==> list@[j] < total_entries,
                decreases list@.len() - k,
            {
                if list[k] >= total_entries {
                    assert(is_first_out_of_bounds(list@, total_entries, k as int));
                    return Err(SelectionError::IndexOutOfBounds(list[k]));
                }
                k += 1;
            }
            Ok(list.clone())
        },
        SelectionRequest::Single(index) => {
            if total_entries == 0 {
                Err(SelectionError::EmptyContainer)
            } else if *index >= total_entries {
                Err(SelectionError::IndexOutOfBounds(*index))
            } else {
                let mut indices: Vec<usize> = Vec::new();
                indices.push(*index);
                Ok(indices)
            }
        },
    }
}

/// The selection flags of a command line. They are meant to exclude one
/// another; where several are given, the first of `extract_all`,
/// `extract_range`, `indices` and `image_index` decides.
#[derive(Debug, PartialEq, Eq)]
pub struct Args {
    /// The index of the one entry to convert.
    pub image_index: Option<usize>,
    /// Whether every entry is to be converted.
    pub extract_all: bool,
    /// The range of entries to convert, as `start-end`.
    pub extract_range: Option<String>,
    /// The indices of the entries to convert.
    pub indices: Option<Vec<usize>>,
}

impl Default for Args {
    /// No flag given.
    fn default() -> (args: Args)
        ensures
            args.image_index is None,
            !args.extract_all,
            args.extract_range is None,
            args.indices is None,
    {
        Args { image_index: None, extract_all: false, extract_range: None, indices: None }
    }
}

impl Args {
    /// The selection that the flags stand for; the first entry where none is
    /// given.
    pub open spec fn selection(&self) -> Selection {
        if self.extract_all {
            Selection::All
        } else if let Some(text) = self.extract_range {
            Selection::Range(text@)
        } else if let Some(indices) = self.indices {
            Selection::List(indices@)
        } else if let Some(index) = self.image_index {
            Selection::Single(index)
        } else {
            Selection::Single(0)
        }
    }

    /// The request that the flags stand for.
    pub fn request(&self) -> (request: SelectionRequest)
        ensures
            request@ == self.selection(),
    {
        if self.extract_all {
            return SelectionRequest::All;
        }
        if let Some(text) = &self.extract_range {
            return SelectionRequest::Range(text.clone());
        }
        if let Some(indices) = &self.indices {
            return SelectionRequest::List(indices.clone());
        }
        if let Some(index) = self.image_index {
            return SelectionRequest::Single(index);
        }
        SelectionRequest::Single(0)
    }
}

/// The indices of the entries that the flags select from a container of
/// `num_entries` entries, in the order in which they are to be converted.
pub fn get_indices_to_extract(args: &Args, num_entries: usize) -> (r: Result<
    Vec<usize>,
    SelectionError,
>)
    ensures
        outcome(r) == resolution(args.selection(), num_entries),
{
    let request = args.request();
    resolve(&request, num_entries)
}

/// In a container that has the entry `index`, the request for that entry
/// alone resolves to that index alone.
pub proof fn lemma_single_resolves_to_itself(index: usize, total: usize)
    requires
        index < total,
    ensures
        resolution(Selection::Single(index), total) == Ok::<Seq<usize>, SelectionError>(
            seq![index],
        ),
{
}

/// An empty container fails every selection that asks for anything, and
/// with `EmptyContainer`, whatever else may be wrong with the selection.
pub proof fn lemma_empty_container_fails(selection: Selection)
    requires
        !asks_nothing(selection),
    ensures
        resolution(selection, 0) == Err::<Seq<usize>, SelectionError>(
            SelectionError::EmptyContainer,
        ),
{
}

/// A selection that asks for nothing resolves to nothing, in any container.
pub proof fn lemma_nothing_resolves_to_nothing(selection: Selection, total: usize)
    requires
        asks_nothing(selection),
    ensures
        resolution(selection, total) == Ok::<Seq<usize>, SelectionError>(Seq::empty()),
{
    let indices = selection->List_0;
    assert(indices =~= Seq::<usize>::empty());
}

/// Every index that a selection resolves to names an entry of the container:
/// no index is clamped, wrapped or passed on unchecked.
pub proof fn lemma_resolved_indices_in_bounds(selection: Selection, total: usize, k: int)
    requires
        resolution(selection, total) is Ok,
        0 <= k < resolution(selection, total)->Ok_0.len(),
    ensures
        resolution(selection, total)->Ok_0[k] < total,
{
    if let Selection::List(indices) = selection {
        if indices[k] >= total {
            lemma_some_index_out_of_bounds(indices, total, k);
        }
    }
}

/// Where one of `indices` is out of bounds, one of them is the first.
pub proof fn lemma_some_index_out_of_bounds(indices: Seq<usize>, total: usize, k: int)
    requires
        0 <= k < indices.len(),
        indices[k] >= total,
    ensures
        first_out_of_bounds(indices, total) is Some,
    decreases k,
{
    if forall|j: int| 0 <= j < k ==> indices[j] < total {
        assert(is_first_out_of_bounds(indices, total, k));
    } else {
        let j = choose|j: int| 0 <= j < k && !(indices[j] < total);
        lemma_some_index_out_of_bounds(indices, total, j);
    }
}

/// A list resolves to itself or to nothing: where it resolves, the indices
/// come back in the order given, each as often as it was given.
pub proof fn lemma_list_resolves_unchanged(indices: Seq<usize>, total: usize)
    requires
        resolution(Selection::List(indices), total) is Ok,
    ensures
        resolution(Selection::List(indices), total) == Ok::<Seq<usize>, SelectionError>(indices),
{
}

/// A list fails on the first of its indices that the container does not have.
pub proof fn lemma_list_fails_on_first_out_of_bounds(indices: Seq<usize>, total: usize, k: int)
    requires
        total > 0,
        is_first_out_of_bounds(indices, total, k),
    ensures
        resolution(Selection::List(indices), total) == Err::<Seq<usize>, SelectionError>(
            SelectionError::IndexOutOfBounds(indices[k]),
        ),
{
    let chosen = choose|j: int| is_first_out_of_bounds(indices, total, j);
    assert(chosen == k);
}

/// A range `start-end` inside the container resolves to `end - start + 1`
/// indices, which ascend from `start` one by one.
pub proof fn lemma_range_resolves_ascending(text: Seq<char>, total: usize)
    requires
        resolution(Selection::Range(text), total) is Ok,
    ensures
        range_bounds(text) is Some,
        ({
            let (start, end) = range_bounds(text)->0;
            let indices = resolution(Selection::Range(text), total)->Ok_0;
            &&& start <= end < total
            &&& indices.len() == end - start + 1
            &&& forall|k: int| 0 <= k < indices.len() ==> indices[k] == start + k
        }),
{
}

} // verus!
