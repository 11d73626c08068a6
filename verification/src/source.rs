//! The source text of a program's two stages.

use crate::shader::Stage;
use vstd::prelude::*;
use vstd::std_specs::iter::IteratorSpec;

verus! {

/// The mathematical value of a [`ShaderSource`]: the text of each stage.
pub struct SourceView {
    pub vertex: Seq<char>,
    pub fragment: Seq<char>,
}

/// The text of one stage.
pub open spec fn stage_text(source: SourceView, stage: Stage) -> Seq<char> {
    match stage {
        Stage::Vertex => source.vertex,
        Stage::Fragment => source.fragment,
    }
}

/// Whether a text can be handed to the driver, which takes it up to the first
/// NUL character: it holds none.
pub open spec fn sendable(text: Seq<char>) -> bool {
    !text.contains('\0')
}

/// Why a pair of texts is no shader source.
#[derive(Clone, Copy, Debug, PartialEq, Eq, Structural)]
pub enum SourceError {
    /// The text of this stage holds a NUL character.
    InteriorNul(Stage),
}

/// The source of a program: the text of its vertex stage and of its fragment
/// stage, both free of NUL characters. It cannot be changed once made.
#[derive(Debug)]
pub struct ShaderSource {
    vertex: String,
    fragment: String,
}

impl View for ShaderSource {
    type V = SourceView;

    closed spec fn view(&self) -> SourceView {
        SourceView { vertex: self.vertex@, fragment: self.fragment@ }
    }
}

/// Whether a text holds a NUL character.
fn holds_nul(text: &str) -> (found: bool)
    ensures
        found == !sendable(text@),
{
    let mut chars = text.chars();
    let ghost mut seen: int = 0;
    loop
        invariant
            0 <= seen <= text@.len(),
            chars.remaining() == text@.skip(seen),
            chars.obeys_prophetic_iter_laws(),
            forall|i: int| 0 <= i < seen ==> text@[i] != '\0',
        ensures
            chars.remaining().len() == 0,
            seen == text@.len(),
        decreases text@.len() - seen,
    {
        match chars.next() {
            Some(c) => {
                if c == '\0' {
                    assert(text@[seen] == '\0');
                    return true;
                }
                proof {
                    assert(text@.skip(seen).drop_first() =~= text@.skip(seen + 1));
                    seen = seen + 1;
                }
            },
            None => {
                break ;
            },
        }
    }
    false
}

impl ShaderSource {
    #[verifier::type_invariant]
    spec fn both_sendable(self) -> bool {
        sendable(self.vertex@) && sendable(self.fragment@)
    }

    /// Makes a source of two texts. A text that holds a NUL character is
    /// refused, the vertex stage's first.
    pub fn new(vertex: String, fragment: String) -> (made: Result<ShaderSource, SourceError>)
        ensures
            match made {
                Ok(source) => sendable(vertex@) && sendable(fragment@) && source@ == (SourceView {
                    vertex: vertex@,
                    fragment: fragment@,
                }),
                Err(SourceError::InteriorNul(Stage::Vertex)) => !sendable(vertex@),
                Err(SourceError::InteriorNul(Stage::Fragment)) => sendable(vertex@) && !sendable(
                    fragment@,
                ),
            },
    {
        if holds_nul(vertex.as_str()) {
            Err(SourceError::InteriorNul(Stage::Vertex))
        } else if holds_nul(fragment.as_str()) {
            Err(SourceError::InteriorNul(Stage::Fragment))
        } else {
            Ok(ShaderSource { vertex, fragment })
        }
    }

    /// The text of one stage. It holds no NUL character.
    pub fn text(&self, stage: Stage) -> (text: &str)
        ensures
            text@ == stage_text(self@, stage),
            sendable(text@),
    {
        proof {
            use_type_invariant(self);
        }
        match stage {
            Stage::Vertex => self.vertex.as_str(),
            Stage::Fragment => self.fragment.as_str(),
        }
    }
}

} // verus!
