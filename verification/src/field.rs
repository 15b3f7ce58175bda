//! Loading the playing field from a text template.
//!
//! A template is a picture of the board in which the letter `r` stands for a
//! cell that a player can mark. Loading it yields the picture with every `r`
//! blanked out, together with the places where the cells are, in the order in
//! which they occur. That order numbers the cells from 0 to 8.

use crate::win::CELLS;
use vstd::prelude::*;
use vstd::std_specs::iter::IteratorSpec;

verus! {

/// The character that marks a cell in a template.
pub const PLACEHOLDER: char = 'r';

/// The character shown in a cell that nobody has marked.
pub const BLANK: char = ' ';

/// What a template character looks like on the field.
pub open spec fn blanked_char(c: char) -> char {
    if c == PLACEHOLDER {
        BLANK
    } else {
        c
    }
}

/// The picture that a template shows: the template itself with every
/// placeholder replaced by a blank.
pub open spec fn blanked(template: Seq<char>) -> Seq<char> {
    Seq::new(template.len(), |i: int| blanked_char(template[i]))
}

/// The positions of the placeholders in a template, in increasing order.
pub open spec fn placeholders(template: Seq<char>) -> Seq<int>
    decreases template.len(),
{
    if template.len() == 0 {
        Seq::empty()
    } else if template.last() == PLACEHOLDER {
        placeholders(template.drop_last()).push(template.len() - 1)
    } else {
        placeholders(template.drop_last())
    }
}

/// A sequence of machine indices read as mathematical integers.
pub open spec fn as_ints(indices: Seq<usize>) -> Seq<int> {
    Seq::new(indices.len(), |k: int| indices[k] as int)
}

/// Why a template cannot be used as a field.
#[derive(Clone, Copy, Debug, PartialEq, Eq, Structural)]
pub enum FieldError {
    /// The template holds this many placeholders instead of nine.
    WrongCellCount(usize),
}

/// What a loaded field holds, as mathematical values.
pub struct FieldView {
    /// The picture, one entry per character of the template.
    pub cells: Seq<char>,
    /// For each cell number, the position of that cell in `cells`.
    pub places: Seq<int>,
}

impl FieldView {
    /// There are nine cells, each of them blank, at places inside the
    /// picture that increase with the cell number.
    pub open spec fn wf(self) -> bool {
        &&& self.places.len() == CELLS
        &&& forall|k: int|
            0 <= k < self.places.len() ==> 0 <= #[trigger] self.places[k] < self.cells.len()
        &&& forall|j: int, k: int|
            0 <= j < k < self.places.len() ==> self.places[j] < self.places[k]
        &&& forall|k: int|
            0 <= k < self.places.len() ==> self.cells[#[trigger] self.places[k]] == BLANK
    }

    /// What loading `template` yields.
    pub open spec fn load(template: Seq<char>) -> FieldView {
        FieldView { cells: blanked(template), places: placeholders(template) }
    }
}

/// A loaded field: the picture and the positions of its nine cells.
#[derive(Debug)]
pub struct Field {
    cells: Vec<char>,
    indices: Vec<usize>,
}

impl View for Field {
    type V = FieldView;

    closed spec fn view(&self) -> FieldView {
        FieldView { cells: self.cells@, places: as_ints(self.indices@) }
    }
}

impl Field {
    /// Every field is well formed.
    #[verifier::type_invariant]
    spec fn inv(self) -> bool {
        self@.wf()
    }

    /// The picture, one entry per character of the template.
    pub fn cells(&self) -> (cells: &Vec<char>)
        ensures
            cells@ == self@.cells,
            self@.wf(),
    {
        proof {
            use_type_invariant(self);
        }
        &self.cells
    }

    /// For each cell number, the position of that cell in the picture.
    pub fn indices(&self) -> (indices: &Vec<usize>)
        ensures
            as_ints(indices@) == self@.places,
            self@.wf(),
    {
        proof {
            use_type_invariant(self);
        }
        &self.indices
    }

    /// Takes the field apart into its picture and its cell positions.
    pub fn into_parts(self) -> (parts: (Vec<char>, Vec<usize>))
        ensures
            parts.0@ == self@.cells,
            as_ints(parts.1@) == self@.places,
            self@.wf(),
    {
        proof {
            use_type_invariant(&self);
        }
        (self.cells, self.indices)
    }
}

/// The placeholder positions are positions of the template.
pub proof fn lemma_placeholders_in_range(template: Seq<char>, k: int)
    requires
        0 <= k < placeholders(template).len(),
    ensures
        0 <= placeholders(template)[k] < template.len(),
        template[placeholders(template)[k]] == PLACEHOLDER,
    decreases template.len(),
{
    if template.len() > 0 {
        let rest = placeholders(template.drop_last());
        if k < rest.len() {
            lemma_placeholders_in_range(template.drop_last(), k);
        }
    }
}

/// The placeholder positions are listed in strictly increasing order.
pub proof fn lemma_placeholders_increasing(template: Seq<char>, j: int, k: int)
    requires
        0 <= j < k < placeholders(template).len(),
    ensures
        placeholders(template)[j] < placeholders(template)[k],
    decreases template.len(),
{
    if template.len() > 0 {
        let rest = placeholders(template.drop_last());
        if k < rest.len() {
            lemma_placeholders_increasing(template.drop_last(), j, k);
        } else {
            lemma_placeholders_in_range(template.drop_last(), j);
        }
    }
}

/// Every placeholder of the template is listed among the positions.
pub proof fn lemma_placeholders_complete(template: Seq<char>, i: int)
    requires
        0 <= i < template.len(),
        template[i] == PLACEHOLDER,
    ensures
        placeholders(template).contains(i),
    decreases template.len(),
{
    let rest = placeholders(template.drop_last());
    if i == template.len() - 1 {
        assert(placeholders(template)[rest.len() as int] == i);
    } else {
        lemma_placeholders_complete(template.drop_last(), i);
        let k = choose|k: int| 0 <= k < rest.len() && rest[k] == i;
        assert(placeholders(template)[k] == i);
    }
}

/// A template with nine placeholders loads into a well-formed field.
pub proof fn lemma_load_wf(template: Seq<char>)
    requires
        placeholders(template).len() == CELLS,
    ensures
        FieldView::load(template).wf(),
{
    let field = FieldView::load(template);
    assert forall|k: int| 0 <= k < field.places.len() implies 0 <= #[trigger] field.places[k]
        < field.cells.len() && field.cells[field.places[k]] == BLANK by {
        lemma_placeholders_in_range(template, k);
    }
    assert forall|j: int, k: int| 0 <= j < k < field.places.len() implies field.places[j]
        < field.places[k] by {
        lemma_placeholders_increasing(template, j, k);
    }
}

/// Loads a field from the text of a template.
///
/// Succeeds exactly when the template holds nine placeholders; otherwise the
/// error tells how many were found.
pub fn create_field(template: &str) -> (res: Result<Field, FieldError>)
    ensures
        match res {
            Ok(field) => {
                &&& placeholders(template@).len() == CELLS
                &&& field@ == FieldView::load(template@)
                &&& field@.wf()
            },
            Err(FieldError::WrongCellCount(found)) => {
                &&& placeholders(template@).len() != CELLS
                &&& found == placeholders(template@).len()
            },
        },
{
    let mut cells: Vec<char> = Vec::new();
    let mut indices: Vec<usize> = Vec::new();
    let ghost mut seen: Seq<char> = Seq::empty();
    let mut chars = template.chars();
    loop
        invariant
            chars.obeys_prophetic_iter_laws(),
            chars.decrease() is Some,
            seen + chars.remaining() == template@,
            cells@ == blanked(seen),
            as_ints(indices@) == placeholders(seen),
        ensures
            cells@ == blanked(template@),
            as_ints(indices@) == placeholders(template@),
        decreases chars.decrease()->0,
    {
        match chars.next() {
            None => {
                break ;
            },
            Some(c) => {
                proof {
                    assert(seen.push(c).drop_last() =~= seen);
                }
                if c == PLACEHOLDER {
                    indices.push(cells.len());
                    cells.push(BLANK);
                } else {
                    cells.push(c);
                }
                proof {
                    seen = seen.push(c);
                }
            },
        }
    }
    if indices.len() != CELLS {
        return Err(FieldError::WrongCellCount(indices.len()));
    }
    proof {
        lemma_load_wf(template@);
    }
    Ok(Field { cells, indices })
}

} // verus!
