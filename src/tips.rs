//! Tips of the tips viewer and their validation.

use crate::text::{blank, is_blank, same_text};
use vstd::prelude::*;

verus! {

/// One tip.
#[derive(Debug, Clone, PartialEq)]
pub struct Tip {
    pub id: String,
    pub title: String,
    pub category: Option<String>,
    pub text: String,
    pub tags: Vec<String>,
}

/// A required tip field.
#[derive(Debug, Clone, Copy, PartialEq, Eq, Structural)]
pub enum TipField {
    Id,
    Title,
    Text,
}

/// Why a tip collection was refused.
#[derive(Debug, Clone, PartialEq)]
pub enum TipError {
    /// The tip at this position has a blank required field.
    MissingField(usize, TipField),
    /// A tip repeats the identifier of an earlier one.
    DuplicateId(String),
}

/// The first blank required field of a tip, in the order id, title, text.
pub open spec fn blank_field(t: Tip) -> Option<TipField> {
    if blank(t.id@) {
        Some(TipField::Id)
    } else if blank(t.title@) {
        Some(TipField::Title)
    } else if blank(t.text@) {
        Some(TipField::Text)
    } else {
        None
    }
}

/// Some tip before position `i` has the identifier of tip `i`.
pub open spec fn repeats_id(tips: Seq<Tip>, i: int) -> bool {
    exists|j: int| 0 <= j < i && #[trigger] tips[j].id@ == tips[i].id@
}

/// Tip `i` is where validation stops.
pub open spec fn faulty(tips: Seq<Tip>, i: int) -> bool {
    blank_field(tips[i]) is Some || repeats_id(tips, i)
}

/// The error for a tip collection whose first faulty tip is at `i`.
pub open spec fn error_at(tips: Seq<Tip>, i: int) -> TipError {
    match blank_field(tips[i]) {
        Some(f) => TipError::MissingField(i as usize, f),
        None => TipError::DuplicateId(tips[i].id),
    }
}

/// Checks that every tip has an id, a title and a text that are not blank,
/// and that no two tips share an id; reports the first tip that fails.
pub fn validate_tips(tips: &[Tip]) -> (r: Result<(), TipError>)
    ensures
        r is Ok <==> forall|i: int| 0 <= i < tips@.len() ==> !faulty(tips@, i),
        r is Err ==> exists|i: int|
            0 <= i < tips@.len() && faulty(tips@, i) && (forall|j: int|
                0 <= j < i ==> !faulty(tips@, j)) && match r {
                Err(TipError::MissingField(k, f)) => blank_field(tips@[i]) == Some(f) && k == i,
                Err(TipError::DuplicateId(id)) => blank_field(tips@[i]) is None && repeats_id(
                    tips@,
                    i,
                ) && id@ == tips@[i].id@,
                Ok(_) => false,
            },
{
    let mut i: usize = 0;
    while i < tips.len()
        invariant
            i <= tips@.len(),
            forall|j: int| 0 <= j < i ==> !faulty(tips@, j),
        decreases tips@.len() - i,
    {
        let tip = &tips[i];
        if is_blank(tip.id.as_str()) {
            assert(blank_field(tips@[i as int]) == Some(TipField::Id));
            assert(faulty(tips@, i as int));
            return Err(TipError::MissingField(i, TipField::Id));
        }
        if is_blank(tip.title.as_str()) {
            assert(blank_field(tips@[i as int]) == Some(TipField::Title));
            assert(faulty(tips@, i as int));
            return Err(TipError::MissingField(i, TipField::Title));
        }
        if is_blank(tip.text.as_str()) {
            assert(blank_field(tips@[i as int]) == Some(TipField::Text));
            assert(faulty(tips@, i as int));
            return Err(TipError::MissingField(i, TipField::Text));
        }
        let mut j: usize = 0;
        while j < i
            invariant
                i < tips@.len(),
                j <= i,
                blank_field(tips@[i as int]) is None,
                forall|k: int| 0 <= k < i ==> !faulty(tips@, k),
                forall|k: int| 0 <= k < j ==> tips@[k].id@ != tips@[i as int].id@,
            decreases i - j,
        {
            if same_text(tips[j].id.as_str(), tips[i].id.as_str()) {
                assert(tips@[j as int].id@ == tips@[i as int].id@);
                assert(repeats_id(tips@, i as int));
                assert(faulty(tips@, i as int));
                return Err(TipError::DuplicateId(tips[i].id.clone()));
            }
            j = j + 1;
        }
        assert(!repeats_id(tips@, i as int));
        i = i + 1;
    }
    Ok(())
}

/// Decimal digits of `n`.
pub open spec fn decimal(n: nat) -> Seq<char>
    decreases n,
{
    if n < 10 {
        seq![digit_char(n)]
    } else {
        decimal(n / 10).push(digit_char(n % 10))
    }
}

pub open spec fn digit_char(d: nat) -> char {
    if d == 0 {
        '0'
    } else if d == 1 {
        '1'
    } else if d == 2 {
        '2'
    } else if d == 3 {
        '3'
    } else if d == 4 {
        '4'
    } else if d == 5 {
        '5'
    } else if d == 6 {
        '6'
    } else if d == 7 {
        '7'
    } else if d == 8 {
        '8'
    } else {
        '9'
    }
}

fn digit(d: usize) -> (r: char)
    requires
        d < 10,
    ensures
        r == digit_char(d as nat),
{
    if d == 0 {
        '0'
    } else if d == 1 {
        '1'
    } else if d == 2 {
        '2'
    } else if d == 3 {
        '3'
    } else if d == 4 {
        '4'
    } else if d == 5 {
        '5'
    } else if d == 6 {
        '6'
    } else if d == 7 {
        '7'
    } else if d == 8 {
        '8'
    } else {
        '9'
    }
}

/// `n` written in decimal.
pub fn decimal_text(n: usize) -> (r: String)
    ensures
        r@ == decimal(n as nat),
    decreases n,
{
    if n < 10 {
        let mut s = String::new();
        crate::text::push_char(&mut s, digit(n));
        assert(s@ =~= seq![digit_char(n as nat)]);
        s
    } else {
        let mut s = decimal_text(n / 10);
        crate::text::push_char(&mut s, digit(n % 10));
        s
    }
}

impl TipField {
    /// The field's name in the tips file.
    pub open spec fn key_of(self) -> Seq<char> {
        match self {
            TipField::Id => "id"@,
            TipField::Title => "title"@,
            TipField::Text => "text"@,
        }
    }

    pub fn key(&self) -> (r: &'static str)
        ensures
            r@ == self.key_of(),
    {
        match self {
            TipField::Id => "id",
            TipField::Title => "title",
            TipField::Text => "text",
        }
    }
}

impl TipError {
    /// A message for the user.
    pub fn to_string(&self) -> (r: String)
        ensures
            r@ == match self {
                TipError::MissingField(i, f) => "Tip at index "@ + decimal(*i as nat)
                    + " is missing required field '"@ + f.key_of() + "'"@,
                TipError::DuplicateId(id) => "Duplicate tip ID '"@ + id@
                    + "' found (tips must have unique IDs)"@,
            },
    {
        match self {
            TipError::MissingField(i, f) => {
                let mut s = String::from_str("Tip at index ");
                let n = decimal_text(*i);
                s.append(n.as_str());
                s.append(" is missing required field '");
                s.append(f.key());
                s.append("'");
                s
            },
            TipError::DuplicateId(id) => {
                let mut s = String::from_str("Duplicate tip ID '");
                s.append(id.as_str());
                s.append("' found (tips must have unique IDs)");
                s
            },
        }
    }
}

} // verus!
