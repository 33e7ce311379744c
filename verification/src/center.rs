//! The centre view: the last classified result and what to draw for it.

use crate::resource::{Kind, Resource};
use crate::texture::{texture_step, Slot, TextureHandle, TextureManager};
use vstd::prelude::*;
use vstd::view::View as _;

verus! {

/// The label of a failed fetch: the error, or `Error` where the error is empty.
pub open spec fn error_label_of(error: Seq<char>) -> Seq<char> {
    if error.len() == 0 {
        "Error"@
    } else {
        error
    }
}

/// The label of a failed fetch: never blank.
pub fn error_label<'a>(error: &'a str) -> (label: &'a str)
    ensures
        label@ == error_label_of(error@),
{
    if error.is_empty() {
        "Error"
    } else {
        error
    }
}

/// What the centre view draws.
pub enum Scene {
    /// No fetch has finished yet: nothing.
    Blank,
    /// The fetch failed: this label, as an alert.
    Failure(String),
    /// The response's fields, then its body as text that can be copied.
    Text,
    /// The response's fields, then its image: the texture and the image's
    /// width and height in pixels.
    Image(TextureHandle, u32, u32),
    /// The response's fields and nothing beneath them.
    Opaque,
}

/// One drawing of the centre view for `result`, from the texture slot and
/// ledger before it to those after it and the scene it gave. Only an image
/// touches slot and ledger, by one `texture_step` for the resource's URL.
pub open spec fn view_step(
    result: Option<Result<Resource, String>>,
    slot: Slot,
    ledger: epi::backend::TexAllocationData,
    slot_after: Slot,
    ledger_after: epi::backend::TexAllocationData,
    scene: Scene,
) -> bool {
    match result {
        Some(Ok(resource)) => match resource.kind {
            Kind::Image(buffer) => {
                &&& scene matches Scene::Image(handle, width, height)
                &&& width == buffer@.width
                &&& height == buffer@.height
                &&& texture_step(slot, ledger, resource.url@, slot_after, ledger_after, handle)
            },
            Kind::Text(_) => scene == Scene::Text && slot_after == slot && ledger_after == ledger,
            Kind::Opaque => scene == Scene::Opaque && slot_after == slot && ledger_after == ledger,
        },
        Some(Err(error)) => {
            &&& scene matches Scene::Failure(label)
            &&& label@ == error_label_of(error@)
            &&& slot_after == slot
            &&& ledger_after == ledger
        },
        None => scene == Scene::Blank && slot_after == slot && ledger_after == ledger,
    }
}

/// The centre view: the last classified result and the texture slot for it.
pub struct View {
    pub result: Option<Result<Resource, String>>,
    pub manager: TextureManager,
}

impl Default for View {
    /// No result, no texture.
    fn default() -> (view: View)
        ensures
            view.result is None,
            view.manager@ is None,
    {
        View { result: None, manager: TextureManager::new() }
    }
}

impl View {
    /// The panel's name.
    pub fn name(&self) -> (name: &'static str)
        ensures
            name@ == "Center View Panel"@,
    {
        "Center View Panel"
    }

    /// Decides what to draw for the last result. For an image the texture
    /// for the resource's URL is made resident; this runs on every frame and
    /// asks the platform for a texture only when the URL has changed.
    pub fn show(&mut self, ledger: &mut epi::backend::TexAllocationData) -> (scene: Scene)
        ensures
            final(self).result == old(self).result,
            view_step(
                old(self).result,
                old(self).manager@,
                *old(ledger),
                final(self).manager@,
                *final(ledger),
                scene,
            ),
    {
        match &self.result {
            None => Scene::Blank,
            Some(Err(error)) => Scene::Failure(error_label(error.as_str()).to_owned()),
            Some(Ok(resource)) => match &resource.kind {
                Kind::Text(_) => Scene::Text,
                Kind::Opaque => Scene::Opaque,
                Kind::Image(buffer) => {
                    let handle = self.manager.ensure_texture(ledger, resource.url.as_str(), buffer);
                    Scene::Image(handle, buffer.width(), buffer.height())
                },
            },
        }
    }
}

} // verus!
