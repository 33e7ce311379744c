//! The texture slot: at most one decoded image resident as a texture, found
//! again by the URL it was decoded for.
//!
//! Textures are requested from the platform through the allocation ledger of
//! `epi`, the record of creations and destructions that the integration
//! carries out after each frame.

use crate::pixels::PixelBuffer;
use vstd::prelude::*;

verus! {

/// The ledger of texture creations and destructions that an `epi` frame
/// carries. Its fields are not read here; see `pending_creations` and
/// `pending_destructions`.
#[verifier::external_type_specification]
#[verifier::external_body]
pub struct ExTexAllocationData(epi::backend::TexAllocationData);

/// The texture numbers under which the ledger holds an image to be created:
/// the keys of its `creations`.
pub uninterp spec fn pending_creations(ledger: epi::backend::TexAllocationData) -> Set<u64>;

/// The texture numbers that the ledger lists to be destroyed, in the order
/// in which they were listed: its `destructions`.
pub uninterp spec fn pending_destructions(ledger: epi::backend::TexAllocationData) -> Seq<
    u64,
>;

/// A texture of the platform, by its number.
#[derive(Clone, Copy, Debug, PartialEq, Eq, Structural)]
pub struct TextureHandle {
    pub id: u64,
}

/// `TexAllocationData::alloc` of `epi`, on the image that
/// `epi::Image::from_rgba_unmultiplied` makes of the buffer. `alloc` takes
/// the ledger's next number, stores the image under it in `creations`, leaves
/// `destructions` alone and returns `TextureId::User` of that number, which
/// is handed back here as `Some`; it builds no other variant. The image
/// constructor panics unless the buffer holds four bytes per pixel, which
/// every `PixelBuffer` does. `alloc` counts its numbers in a `u64` that only
/// it can write, one per call from zero, and would overflow on call 2^64.
#[verifier::external_body]
fn allocate(ledger: &mut epi::backend::TexAllocationData, image: &PixelBuffer) -> (id:
    Option<u64>)
    requires
        image.wf(),
    ensures
        id is Some,
        pending_creations(*final(ledger)) == pending_creations(*old(ledger)).insert(id->0),
        pending_destructions(*final(ledger)) == pending_destructions(*old(ledger)),
{
    let size = [image.width() as usize, image.height() as usize];
    match ledger.alloc(epi::Image::from_rgba_unmultiplied(size, image.rgba())) {
        epi::egui::TextureId::User(id) => Some(id),
        epi::egui::TextureId::Egui => None,
    }
}

/// `TexAllocationData::free` of `epi`, on `TextureId::User(id)`: it appends
/// `id` to `destructions` and leaves `creations` alone.
#[verifier::external_body]
fn free(ledger: &mut epi::backend::TexAllocationData, id: u64)
    ensures
        pending_destructions(*final(ledger)) == pending_destructions(*old(ledger)).push(id),
        pending_creations(*final(ledger)) == pending_creations(*old(ledger)),
{
    ledger.free(epi::egui::TextureId::User(id))
}

/// What a texture manager holds: nothing, or the URL it last saw with the
/// texture made for it.
pub type Slot = Option<(Seq<char>, TextureHandle)>;

/// The slot holds a texture for exactly this URL.
pub open spec fn slot_holds(slot: Slot, url: Seq<char>) -> bool {
    slot matches Some((held_url, _)) && held_url == url
}

/// How many textures the slot holds: never more than one.
pub open spec fn held_count(slot: Slot) -> nat {
    if slot is Some {
        1
    } else {
        0
    }
}

/// One call of `TextureManager::ensure_texture` for `url`, from the slot and
/// ledger before it to the slot and ledger after it and the handle it
/// returned.
///
/// Where the slot holds a texture for `url`, nothing changes and that
/// texture is returned. Otherwise the texture that the slot held, if any, is
/// listed for destruction, the returned texture is listed for creation, and
/// the slot holds `url` with it.
pub open spec fn texture_step(
    before: Slot,
    ledger_before: epi::backend::TexAllocationData,
    url: Seq<char>,
    after: Slot,
    ledger_after: epi::backend::TexAllocationData,
    handle: TextureHandle,
) -> bool {
    if slot_holds(before, url) {
        &&& after == before
        &&& ledger_after == ledger_before
        &&& before == Some((url, handle))
    } else {
        &&& after == Some((url, handle))
        &&& pending_creations(ledger_after) == pending_creations(ledger_before).insert(handle.id)
        &&& pending_destructions(ledger_after) == match before {
            Some((_, held)) => pending_destructions(ledger_before).push(held.id),
            None => pending_destructions(ledger_before),
        }
    }
}

/// Keeper of the at most one resident texture.
pub struct TextureManager {
    loaded: Option<(String, TextureHandle)>,
}

impl View for TextureManager {
    type V = Slot;

    closed spec fn view(&self) -> Slot {
        match self.loaded {
            Some((url, handle)) => Some((url@, handle)),
            None => None,
        }
    }
}

impl Default for TextureManager {
    fn default() -> (manager: TextureManager)
        ensures
            manager@ is None,
    {
        TextureManager::new()
    }
}

impl TextureManager {
    /// A manager that holds nothing.
    pub fn new() -> (manager: TextureManager)
        ensures
            manager@ is None,
    {
        TextureManager { loaded: None }
    }

    /// Whether a texture made for exactly `url` is held.
    pub fn holds(&self, url: &str) -> (held: bool)
        ensures
            held == slot_holds(self@, url@),
    {
        match &self.loaded {
            Some((held_url, _)) => *held_url == url.to_owned(),
            None => false,
        }
    }

    /// The texture that is held, if any.
    pub fn handle(&self) -> (handle: Option<TextureHandle>)
        ensures
            handle == match self@ {
                Some((_, held)) => Some(held),
                None => None,
            },
    {
        match &self.loaded {
            Some((_, handle)) => Some(*handle),
            None => None,
        }
    }

    /// Gives up the held texture, if any, and lists it for destruction.
    fn release(&mut self, ledger: &mut epi::backend::TexAllocationData)
        ensures
            final(self)@ is None,
            pending_creations(*final(ledger)) == pending_creations(*old(ledger)),
            pending_destructions(*final(ledger)) == match old(self)@ {
                Some((_, held)) => pending_destructions(*old(ledger)).push(held.id),
                None => pending_destructions(*old(ledger)),
            },
    {
        match self.loaded.take() {
            Some((_, handle)) => free(ledger, handle.id),
            None => {},
        }
    }

    /// Requests a texture for `image` and holds it under `url`. Nothing may
    /// be held at this point: a new texture is requested only after the
    /// previous one was given up.
    fn acquire(
        &mut self,
        ledger: &mut epi::backend::TexAllocationData,
        url: &str,
        image: &PixelBuffer,
    ) -> (handle: TextureHandle)
        requires
            held_count(old(self)@) == 0,
        ensures
            final(self)@ == Some((url@, handle)),
            pending_creations(*final(ledger)) == pending_creations(*old(ledger)).insert(handle.id),
            pending_destructions(*final(ledger)) == pending_destructions(*old(ledger)),
    {
        proof {
            use_type_invariant(image);
        }
        let handle = match allocate(ledger, image) {
            Some(id) => TextureHandle { id },
            None => vstd::pervasive::unreached(),
        };
        self.loaded = Some((url.to_owned(), handle));
        handle
    }

    /// The texture held for exactly `url`, if there is one.
    pub fn held_for(&self, url: &str) -> (held: Option<TextureHandle>)
        ensures
            match held {
                Some(handle) => self@ == Some((url@, handle)),
                None => !slot_holds(self@, url@),
            },
    {
        match &self.loaded {
            Some((held_url, handle)) => if *held_url == url.to_owned() {
                Some(*handle)
            } else {
                None
            },
            None => None,
        }
    }

    /// The texture for the image at `url`. Where the URL is the one last
    /// seen, the texture held for it is returned and the platform is not
    /// asked for anything, whatever `image` holds. Otherwise the texture held
    /// so far is given up first, then one is requested for `image`.
    pub fn ensure_texture(
        &mut self,
        ledger: &mut epi::backend::TexAllocationData,
        url: &str,
        image: &PixelBuffer,
    ) -> (handle: TextureHandle)
        ensures
            texture_step(old(self)@, *old(ledger), url@, final(self)@, *final(ledger), handle),
            held_count(final(self)@) == 1,
    {
        match self.held_for(url) {
            Some(handle) => handle,
            None => {
                self.release(ledger);
                self.acquire(ledger, url, image)
            },
        }
    }
}

/// Asking twice for the same URL: the second call returns the texture of the
/// first and leaves slot and ledger as the first left them. Started from an
/// empty slot, all that the two calls do to the ledger is to list that one
/// texture for creation; nothing is listed for destruction.
pub proof fn lemma_same_url_keeps_texture(
    slot0: Slot,
    ledger0: epi::backend::TexAllocationData,
    url: Seq<char>,
    slot1: Slot,
    ledger1: epi::backend::TexAllocationData,
    handle1: TextureHandle,
    slot2: Slot,
    ledger2: epi::backend::TexAllocationData,
    handle2: TextureHandle,
)
    requires
        texture_step(slot0, ledger0, url, slot1, ledger1, handle1),
        texture_step(slot1, ledger1, url, slot2, ledger2, handle2),
    ensures
        handle2 == handle1,
        slot2 == slot1,
        ledger2 == ledger1,
        slot0 is None ==> pending_creations(ledger2) == pending_creations(ledger0).insert(
            handle1.id,
        ) && pending_destructions(ledger2) == pending_destructions(ledger0),
{
}

/// Asking for one URL and then for another: the second call lists exactly
/// the first call's texture for destruction and its own for creation. After
/// either call the slot holds one texture, after the second that of the
/// second URL.
pub proof fn lemma_url_change_replaces_texture(
    slot0: Slot,
    ledger0: epi::backend::TexAllocationData,
    url_a: Seq<char>,
    slot1: Slot,
    ledger1: epi::backend::TexAllocationData,
    handle_a: TextureHandle,
    url_b: Seq<char>,
    slot2: Slot,
    ledger2: epi::backend::TexAllocationData,
    handle_b: TextureHandle,
)
    requires
        texture_step(slot0, ledger0, url_a, slot1, ledger1, handle_a),
        texture_step(slot1, ledger1, url_b, slot2, ledger2, handle_b),
        url_a != url_b,
    ensures
        pending_destructions(ledger2) == pending_destructions(ledger1).push(handle_a.id),
        pending_creations(ledger2) == pending_creations(ledger1).insert(handle_b.id),
        slot2 == Some((url_b, handle_b)),
        held_count(slot1) == 1 && held_count(slot2) == 1,
{
}

} // verus!
