//! The surface that frames are shown on: its format and its configuration.

use vstd::prelude::*;

verus! {

/// A format that a surface offers. The four that the viewer asks for are
/// told apart; any other is `Other`.
#[derive(Clone, Copy, Debug, PartialEq, Eq, Structural)]
pub enum SurfaceFormat {
    Bgra8Unorm,
    Bgra8UnormSrgb,
    Rgba8Unorm,
    Rgba8UnormSrgb,
    Other,
}

impl SurfaceFormat {
    /// Whether the viewer asks for this format.
    pub open spec fn spec_wanted(self) -> bool {
        self != SurfaceFormat::Other
    }

    /// Whether the viewer asks for this format.
    pub fn wanted(self) -> (w: bool)
        ensures
            w == self.spec_wanted(),
    {
        match self {
            SurfaceFormat::Other => false,
            _ => true,
        }
    }
}

/// How the surface is configured. `format` is the place of the chosen format
/// in the list that the surface offered.
#[derive(Clone, Copy, Debug, PartialEq, Eq, Structural)]
pub struct SurfaceConfig {
    pub width: u32,
    pub height: u32,
    pub format: usize,
    pub max_frame_latency: u32,
}

/// Frames that may wait for the display at once.
pub const MAX_FRAME_LATENCY: u32 = 3;

/// Whether `i` is the place of the format to take from `formats`: the first
/// wanted one, or the first of all where none is wanted.
pub open spec fn is_choice(formats: Seq<SurfaceFormat>, i: int) -> bool {
    &&& 0 <= i < formats.len()
    &&& forall|j: int| 0 <= j < i ==> !(#[trigger] formats[j]).spec_wanted()
    &&& formats[i].spec_wanted() || (i == 0 && forall|j: int|
        0 <= j < formats.len() ==> !(#[trigger] formats[j]).spec_wanted())
}

/// Chooses the surface format: the first of the offered ones that the viewer
/// asks for, or the first offered where it asks for none of them. Nothing is
/// chosen from an empty list.
pub fn choose_format(formats: &Vec<SurfaceFormat>) -> (choice: Option<usize>)
    ensures
        choice is None <==> formats@.len() == 0,
        choice matches Some(i) ==> is_choice(formats@, i as int),
{
    if formats.len() == 0 {
        return None;
    }
    let mut i: usize = 0;
    while i < formats.len()
        invariant
            i <= formats.len(),
            forall|j: int| 0 <= j < i ==> !(#[trigger] formats@[j]).spec_wanted(),
        decreases formats.len() - i,
    {
        if formats[i].wanted() {
            return Some(i);
        }
        i += 1;
    }
    Some(0)
}

/// There is one choice at most, so `choose_format` is told exactly.
pub proof fn lemma_choice_is_unique(formats: Seq<SurfaceFormat>, i: int, j: int)
    requires
        is_choice(formats, i),
        is_choice(formats, j),
    ensures
        i == j,
{
    if i < j {
        assert(!formats[i].spec_wanted());
    } else if j < i {
        assert(!formats[j].spec_wanted());
    }
}

} // verus!
