//! When the pattern texture counts as ready.
//!
//! The pattern image is loaded asynchronously. Once per frame the state is
//! polled with the load state that the asset system reports. The first poll
//! that sees the image loaded sets the flag, for good, and asks the caller to
//! reinterpret the image as a layered texture; every other poll does nothing.

use vstd::prelude::*;
use bevy::image::Image;
use bevy::render::render_resource::TextureDimension;

verus! {

/// The image the pattern layers are read from, stacked one above the other.
pub const PATTERN_TEXTURE_PATH: &'static str = "textures/pattern_0.png";

/// How many layers the pattern image stacks.
pub const PATTERN_LAYERS: u32 = 4;

/// What the asset system reports about an asset that was asked for.
#[derive(Clone, Copy, Debug, PartialEq, Eq, Structural)]
pub enum LoadState {
    NotLoaded,
    Loading,
    Loaded,
    Failed,
}

/// What the caller has to do after a poll.
#[derive(Clone, Copy, Debug, PartialEq, Eq, Structural)]
pub enum PollAction {
    /// Nothing this frame.
    Wait,
    /// The pattern image has just arrived: reinterpret the stacked 2D image
    /// as a 2D array texture of `layers` layers.
    Reinterpret { layers: u32 },
}

/// Whether a texture is a line, a plane or a volume of texels.
#[derive(Clone, Copy, Debug, PartialEq, Eq, Structural)]
pub enum ImageDimension {
    D1,
    D2,
    D3,
}

/// The size of an image as its texture descriptor gives it.
#[derive(Clone, Copy, Debug, PartialEq, Eq, Structural)]
pub struct ImageShape {
    pub width: u32,
    pub height: u32,
    pub depth_or_layers: u32,
    pub dimension: ImageDimension,
}

/// The engine's image asset, opaque here.
#[verifier::external_type_specification]
#[verifier::external_body]
pub struct ExImage(Image);

/// The size that an image's texture descriptor gives.
pub uninterp spec fn image_shape(image: Image) -> ImageShape;

/// Whether an image of this shape can be read as `layers` layers stacked one
/// above the other: a single 2D image whose height the layers divide evenly,
/// and whose texel count fits 32 bits.
pub open spec fn can_stack(shape: ImageShape, layers: u32) -> bool {
    &&& shape.dimension == ImageDimension::D2
    &&& shape.depth_or_layers == 1
    &&& layers > 0
    &&& shape.height % layers == 0
    &&& shape.width * shape.height <= u32::MAX
}

/// The shape of a stacked image read as `layers` layers: as wide, each layer
/// an equal share of the height.
pub open spec fn stacked(shape: ImageShape, layers: u32) -> ImageShape
    recommends
        can_stack(shape, layers),
{
    ImageShape { height: shape.height / layers, depth_or_layers: layers, ..shape }
}

/// The mathematical content of a [`PatternState`].
pub ghost struct PatternStateView<H> {
    pub pattern: H,
    pub mixed: H,
    pub layers: u32,
    pub loaded: bool,
}

/// The pattern texture, the texture the mix is written to, and whether the
/// pattern has arrived. `H` is the engine's texture handle; nothing here looks
/// inside it.
#[derive(Clone, Debug)]
pub struct PatternState<H> {
    pattern: H,
    mixed: H,
    layers: u32,
    loaded: bool,
}

/// Whether a poll that sees `load` sets a flag that is now `loaded`.
pub open spec fn fires(loaded: bool, load: LoadState) -> bool {
    !loaded && load == LoadState::Loaded
}

/// The flag after a poll that sees `load`.
pub open spec fn step(loaded: bool, load: LoadState) -> bool {
    loaded || load == LoadState::Loaded
}

/// The flag after polling once for each of `events`, in order.
pub open spec fn loaded_after(loaded: bool, events: Seq<LoadState>) -> bool
    decreases events.len(),
{
    if events.len() == 0 {
        loaded
    } else {
        loaded_after(step(loaded, events[0]), events.drop_first())
    }
}

/// How many of the polls for `events`, in order, set the flag.
pub open spec fn firings(loaded: bool, events: Seq<LoadState>) -> nat
    decreases events.len(),
{
    if events.len() == 0 {
        0
    } else {
        let first: nat = if fires(loaded, events[0]) { 1 } else { 0 };
        first + firings(step(loaded, events[0]), events.drop_first())
    }
}

impl<H> View for PatternState<H> {
    type V = PatternStateView<H>;

    closed spec fn view(&self) -> PatternStateView<H> {
        PatternStateView {
            pattern: self.pattern,
            mixed: self.mixed,
            layers: self.layers,
            loaded: self.loaded,
        }
    }
}

impl<H> PatternState<H> {
    /// The state before the pattern has arrived, over the two handles, for a
    /// pattern of `layers` layers.
    pub fn new(pattern: H, mixed: H, layers: u32) -> (state: Self)
        ensures
            state@ == (PatternStateView { pattern, mixed, layers, loaded: false }),
    {
        PatternState { pattern, mixed, layers, loaded: false }
    }

    /// The handle of the pattern texture.
    pub fn pattern(&self) -> (handle: &H)
        ensures
            *handle == self@.pattern,
    {
        &self.pattern
    }

    /// The handle of the texture that the mix is written to.
    pub fn mixed(&self) -> (handle: &H)
        ensures
            *handle == self@.mixed,
    {
        &self.mixed
    }

    /// The number of layers the pattern image is read as.
    pub fn layers(&self) -> (layers: u32)
        ensures
            layers == self@.layers,
    {
        self.layers
    }

    /// Whether the pattern has arrived.
    pub fn is_loaded(&self) -> (loaded: bool)
        ensures
            loaded == self@.loaded,
    {
        self.loaded
    }

    /// One frame's poll. The flag is set by the first poll that sees the
    /// pattern loaded, and only that poll asks for the reinterpretation. The
    /// handles and the layer count never change.
    pub fn poll(&mut self, load: LoadState) -> (action: PollAction)
        ensures
            final(self)@ == (PatternStateView {
                loaded: step(old(self)@.loaded, load),
                ..old(self)@
            }),
            fires(old(self)@.loaded, load) ==> action == (PollAction::Reinterpret {
                layers: old(self)@.layers,
            }),
            !fires(old(self)@.loaded, load) ==> action == PollAction::Wait && final(self)@ == old(
                self,
            )@,
    {
        if self.loaded {
            return PollAction::Wait;
        }
        match load {
            LoadState::Loaded => {
                self.loaded = true;
                PollAction::Reinterpret { layers: self.layers }
            },
            _ => PollAction::Wait,
        }
    }
}

/// Reads the fields `size` and `dimension` of an `Image`'s
/// `texture_descriptor`.
///
/// Not proved: the result is the image's shape, field for field.
#[verifier::external_body]
fn shape_of(image: &Image) -> (shape: ImageShape)
    ensures
        shape == image_shape(*image),
{
    ImageShape {
        width: image.texture_descriptor.size.width,
        height: image.texture_descriptor.size.height,
        depth_or_layers: image.texture_descriptor.size.depth_or_array_layers,
        dimension: match image.texture_descriptor.dimension {
            TextureDimension::D1 => ImageDimension::D1,
            TextureDimension::D2 => ImageDimension::D2,
            TextureDimension::D3 => ImageDimension::D3,
        },
    }
}

/// Calls `Image::reinterpret_stacked_2d_as_array`.
///
/// Not proved, taken from the engine's source: on a single 2D image whose
/// height `layers` divides, the call keeps the width and the dimension, makes
/// the height the share of one layer and the layer count `layers`. It panics
/// on any other image, and where the texel count overflows 32 bits; the
/// precondition leaves those out.
#[verifier::external_body]
fn reinterpret_stacked(image: &mut Image, layers: u32)
    requires
        can_stack(image_shape(*old(image)), layers),
    ensures
        image_shape(*final(image)) == stacked(image_shape(*old(image)), layers),
{
    image.reinterpret_stacked_2d_as_array(layers);
}

/// Whether an image of this shape can be read as `layers` stacked layers.
pub fn stackable(shape: ImageShape, layers: u32) -> (ok: bool)
    ensures
        ok == can_stack(shape, layers),
{
    if layers == 0 || shape.depth_or_layers != 1 {
        return false;
    }
    match shape.dimension {
        ImageDimension::D2 => {},
        _ => {
            return false;
        },
    }
    shape.height % layers == 0 && shape.width.checked_mul(shape.height).is_some()
}

/// Turns the loaded pattern image into a 2D array texture of `layers` layers,
/// where its shape allows that. Any other image is left as it was, and the
/// result says so.
pub fn reinterpret_pattern(image: &mut Image, layers: u32) -> (done: bool)
    ensures
        done == can_stack(image_shape(*old(image)), layers),
        done ==> image_shape(*final(image)) == stacked(image_shape(*old(image)), layers),
        !done ==> *final(image) == *old(image),
{
    let shape = shape_of(image);
    if stackable(shape, layers) {
        reinterpret_stacked(image, layers);
        true
    } else {
        false
    }
}

/// A flag that is set stays set, and no later poll fires.
pub proof fn law_loaded_is_final(events: Seq<LoadState>)
    ensures
        loaded_after(true, events),
        firings(true, events) == 0,
    decreases events.len(),
{
    if events.len() > 0 {
        law_loaded_is_final(events.drop_first());
    }
}

/// Over any run of polls at most one fires.
pub proof fn law_fires_at_most_once(loaded: bool, events: Seq<LoadState>)
    ensures
        firings(loaded, events) <= 1,
    decreases events.len(),
{
    if events.len() > 0 {
        if step(loaded, events[0]) {
            law_loaded_is_final(events.drop_first());
        } else {
            law_fires_at_most_once(false, events.drop_first());
        }
    }
}

/// A flag that starts unset is set after a run of polls exactly if one of
/// them saw the pattern loaded, and exactly then one poll has fired.
pub proof fn law_opens_only_on_completion(events: Seq<LoadState>)
    ensures
        loaded_after(false, events) <==> events.contains(LoadState::Loaded),
        firings(false, events) == 1 <==> events.contains(LoadState::Loaded),
        firings(false, events) == 0 <==> !events.contains(LoadState::Loaded),
    decreases events.len(),
{
    if events.len() > 0 {
        let rest = events.drop_first();
        if events[0] == LoadState::Loaded {
            law_loaded_is_final(rest);
            assert(events.contains(LoadState::Loaded));
        } else {
            law_opens_only_on_completion(rest);
            if rest.contains(LoadState::Loaded) {
                let i = choose|i: int| 0 <= i < rest.len() && rest[i] == LoadState::Loaded;
                assert(events[i + 1] == LoadState::Loaded);
            }
            if events.contains(LoadState::Loaded) {
                let j = choose|j: int| 0 <= j < events.len() && events[j] == LoadState::Loaded;
                assert(rest[j - 1] == LoadState::Loaded);
            }
        }
    }
}

} // verus!
