//! The four orientations, the rule that derives one from a sensor sample,
//! and the fixed data that each orientation carries.

use vstd::prelude::*;
use crate::text::str_eq;

verus! {

/// Magnitude beyond which an axis counts as strongly tilted.
pub const THRESHOLD: i32 = 500_000;

/// Physical orientation of the device.
#[derive(Clone, Copy, Debug, PartialEq, Eq, Structural)]
pub enum Orientation {
    /// Held the usual way up.
    Normal,
    /// Turned upside down.
    Inverted,
    /// Turned so that the left edge is on top.
    LeftUp,
    /// Turned so that the right edge is on top.
    RightUp,
}

/// The orientation that a raw sample `(x, y)` stands for.
///
/// A `y` above the threshold means `Inverted` whatever `x` is; otherwise the
/// sign of a strongly tilted `x` picks the side, and anything else is
/// `Normal`.
pub open spec fn orientation_of(x: int, y: int) -> Orientation {
    if y > THRESHOLD {
        Orientation::Inverted
    } else if x < -THRESHOLD {
        Orientation::LeftUp
    } else if x > THRESHOLD {
        Orientation::RightUp
    } else {
        Orientation::Normal
    }
}

/// Classifies one sensor sample.
pub fn classify(x: i32, y: i32) -> (o: Orientation)
    ensures
        o == orientation_of(x as int, y as int),
        -THRESHOLD <= x <= THRESHOLD && -THRESHOLD <= y <= THRESHOLD ==> o == Orientation::Normal,
        x < -THRESHOLD && y <= THRESHOLD ==> o == Orientation::LeftUp,
        x > THRESHOLD && y <= THRESHOLD ==> o == Orientation::RightUp,
        y > THRESHOLD ==> o == Orientation::Inverted,
{
    if x < -THRESHOLD {
        if y > THRESHOLD {
            Orientation::Inverted
        } else {
            Orientation::LeftUp
        }
    } else if x > THRESHOLD {
        if y > THRESHOLD {
            Orientation::Inverted
        } else {
            Orientation::RightUp
        }
    } else {
        if y > THRESHOLD {
            Orientation::Inverted
        } else {
            Orientation::Normal
        }
    }
}

/// The transform identifier by which a compositor names `o`.
pub open spec fn transform_id_of(o: Orientation) -> Seq<char> {
    match o {
        Orientation::Normal => "normal"@,
        Orientation::LeftUp => "90"@,
        Orientation::Inverted => "180"@,
        Orientation::RightUp => "270"@,
    }
}

/// The rotation keyword by which an X server names `o`.
pub open spec fn rotation_keyword_of(o: Orientation) -> Seq<char> {
    match o {
        Orientation::Normal => "normal"@,
        Orientation::LeftUp => "left"@,
        Orientation::Inverted => "inverted"@,
        Orientation::RightUp => "right"@,
    }
}

/// The input-transform matrix of `o`: nine coefficients, row by row, that
/// map touch coordinates onto the rotated display.
pub open spec fn matrix_of(o: Orientation) -> Seq<i8> {
    match o {
        Orientation::Normal => seq![1i8, 0i8, 0i8, 0i8, 1i8, 0i8, 0i8, 0i8, 1i8],
        Orientation::Inverted => seq![-1i8, 0i8, 1i8, 0i8, -1i8, 1i8, 0i8, 0i8, 1i8],
        Orientation::LeftUp => seq![0i8, -1i8, 1i8, 1i8, 0i8, 0i8, 0i8, 0i8, 1i8],
        Orientation::RightUp => seq![0i8, 1i8, 0i8, -1i8, 0i8, 1i8, 0i8, 0i8, 1i8],
    }
}

/// The orientation whose transform identifier is `id`, or `None` where
/// `id` is the identifier of none.
pub open spec fn with_transform_id(id: Seq<char>) -> Option<Orientation> {
    if id == transform_id_of(Orientation::Normal) {
        Some(Orientation::Normal)
    } else if id == transform_id_of(Orientation::Inverted) {
        Some(Orientation::Inverted)
    } else if id == transform_id_of(Orientation::LeftUp) {
        Some(Orientation::LeftUp)
    } else if id == transform_id_of(Orientation::RightUp) {
        Some(Orientation::RightUp)
    } else {
        None
    }
}

/// The orientation whose rotation keyword is `keyword`, or `None` where
/// `keyword` is the keyword of none.
pub open spec fn with_rotation_keyword(keyword: Seq<char>) -> Option<Orientation> {
    if keyword == rotation_keyword_of(Orientation::Normal) {
        Some(Orientation::Normal)
    } else if keyword == rotation_keyword_of(Orientation::Inverted) {
        Some(Orientation::Inverted)
    } else if keyword == rotation_keyword_of(Orientation::LeftUp) {
        Some(Orientation::LeftUp)
    } else if keyword == rotation_keyword_of(Orientation::RightUp) {
        Some(Orientation::RightUp)
    } else {
        None
    }
}

/// Makes the characters of every identifier and keyword known to the
/// verifier.
pub proof fn reveal_tokens()
    ensures
        "normal"@ == seq!['n', 'o', 'r', 'm', 'a', 'l'],
        "90"@ == seq!['9', '0'],
        "180"@ == seq!['1', '8', '0'],
        "270"@ == seq!['2', '7', '0'],
        "left"@ == seq!['l', 'e', 'f', 't'],
        "inverted"@ == seq!['i', 'n', 'v', 'e', 'r', 't', 'e', 'd'],
        "right"@ == seq!['r', 'i', 'g', 'h', 't'],
{
    reveal_strlit("normal");
    reveal_strlit("90");
    reveal_strlit("180");
    reveal_strlit("270");
    reveal_strlit("left");
    reveal_strlit("inverted");
    reveal_strlit("right");
    assert("normal"@ =~= seq!['n', 'o', 'r', 'm', 'a', 'l']);
    assert("90"@ =~= seq!['9', '0']);
    assert("180"@ =~= seq!['1', '8', '0']);
    assert("270"@ =~= seq!['2', '7', '0']);
    assert("left"@ =~= seq!['l', 'e', 'f', 't']);
    assert("inverted"@ =~= seq!['i', 'n', 'v', 'e', 'r', 't', 'e', 'd']);
    assert("right"@ =~= seq!['r', 'i', 'g', 'h', 't']);
}

/// An orientation is found again under its own transform identifier.
pub proof fn lemma_transform_id_round_trip(o: Orientation)
    ensures
        with_transform_id(transform_id_of(o)) == Some(o),
{
    lemma_transform_id_injective(o, Orientation::Normal);
    lemma_transform_id_injective(o, Orientation::Inverted);
    lemma_transform_id_injective(o, Orientation::LeftUp);
    lemma_transform_id_injective(o, Orientation::RightUp);
}

/// An orientation is found again under its own rotation keyword.
pub proof fn lemma_rotation_keyword_round_trip(o: Orientation)
    ensures
        with_rotation_keyword(rotation_keyword_of(o)) == Some(o),
{
    lemma_rotation_keyword_injective(o, Orientation::Normal);
    lemma_rotation_keyword_injective(o, Orientation::Inverted);
    lemma_rotation_keyword_injective(o, Orientation::LeftUp);
    lemma_rotation_keyword_injective(o, Orientation::RightUp);
}

/// No two orientations share a transform identifier.
pub proof fn lemma_transform_id_injective(a: Orientation, b: Orientation)
    ensures
        transform_id_of(a) == transform_id_of(b) ==> a == b,
{
    reveal_tokens();
    let (x, y) = (transform_id_of(a), transform_id_of(b));
    assert(x == y ==> x.len() == y.len() && x[0] == y[0]);
}

/// No two orientations share a rotation keyword.
pub proof fn lemma_rotation_keyword_injective(a: Orientation, b: Orientation)
    ensures
        rotation_keyword_of(a) == rotation_keyword_of(b) ==> a == b,
{
    reveal_tokens();
    let (x, y) = (rotation_keyword_of(a), rotation_keyword_of(b));
    assert(x == y ==> x.len() == y.len() && x[0] == y[0]);
}

impl Orientation {
    /// The transform identifier of this orientation.
    pub fn transform_id(self) -> (id: &'static str)
        ensures
            id@ == transform_id_of(self),
    {
        match self {
            Orientation::Normal => "normal",
            Orientation::LeftUp => "90",
            Orientation::Inverted => "180",
            Orientation::RightUp => "270",
        }
    }

    /// The rotation keyword of this orientation.
    pub fn rotation_keyword(self) -> (keyword: &'static str)
        ensures
            keyword@ == rotation_keyword_of(self),
    {
        match self {
            Orientation::Normal => "normal",
            Orientation::LeftUp => "left",
            Orientation::Inverted => "inverted",
            Orientation::RightUp => "right",
        }
    }

    /// The input-transform matrix of this orientation.
    pub fn matrix(self) -> (m: [i8; 9])
        ensures
            m@ == matrix_of(self),
    {
        let m: [i8; 9] = match self {
            Orientation::Normal => [1, 0, 0, 0, 1, 0, 0, 0, 1],
            Orientation::Inverted => [-1, 0, 1, 0, -1, 1, 0, 0, 1],
            Orientation::LeftUp => [0, -1, 1, 1, 0, 0, 0, 0, 1],
            Orientation::RightUp => [0, 1, 0, -1, 0, 1, 0, 0, 1],
        };
        assert(m@ =~= matrix_of(self));
        m
    }

    /// The orientation whose transform identifier is `id`, if there is one.
    pub fn from_transform_id(id: &str) -> (r: Option<Orientation>)
        ensures
            r == with_transform_id(id@),
            r matches Some(o) ==> id@ == transform_id_of(o),
            r is None ==> forall|o: Orientation| id@ != transform_id_of(o),
    {
        if str_eq(id, "normal") {
            Some(Orientation::Normal)
        } else if str_eq(id, "180") {
            Some(Orientation::Inverted)
        } else if str_eq(id, "90") {
            Some(Orientation::LeftUp)
        } else if str_eq(id, "270") {
            Some(Orientation::RightUp)
        } else {
            None
        }
    }

    /// The orientation whose rotation keyword is `keyword`, if there is one.
    pub fn from_rotation_keyword(keyword: &str) -> (r: Option<Orientation>)
        ensures
            r == with_rotation_keyword(keyword@),
            r matches Some(o) ==> keyword@ == rotation_keyword_of(o),
            r is None ==> forall|o: Orientation| keyword@ != rotation_keyword_of(o),
    {
        if str_eq(keyword, "normal") {
            Some(Orientation::Normal)
        } else if str_eq(keyword, "inverted") {
            Some(Orientation::Inverted)
        } else if str_eq(keyword, "left") {
            Some(Orientation::LeftUp)
        } else if str_eq(keyword, "right") {
            Some(Orientation::RightUp)
        } else {
            None
        }
    }
}

} // verus!
