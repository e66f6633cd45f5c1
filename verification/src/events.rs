use vstd::prelude::*;

verus! {

/// One host-originated edit request: new fragment-shader source text, or
/// the encoded bytes of a texture image.
pub enum EditEvent {
    ShaderSource(String),
    TextureBytes(Vec<u8>),
}

/// The mathematical image of an edit event.
pub ghost enum EditView {
    Shader(Seq<char>),
    Texture(Seq<u8>),
}

impl View for EditEvent {
    type V = EditView;

    open spec fn view(&self) -> EditView {
        match self {
            EditEvent::ShaderSource(s) => EditView::Shader(s@),
            EditEvent::TextureBytes(b) => EditView::Texture(b@),
        }
    }
}

} // verus!
