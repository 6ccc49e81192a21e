//! Decisions and data layout of a two-pass separable Gaussian blur.

use vstd::prelude::*;

verus! {

/// Maximum number of one-sided taps (including the center tap) that the blur
/// kernel may have. It bounds the uniform buffer size and the per-pixel cost.
pub const MAX_TAPS: usize = 65;

/// One-sided kernel radius after capping: at least one tap on each side of
/// the center, at most `MAX_TAPS - 1`.
pub open spec fn capped_radius(raw_radius: int) -> int {
    if raw_radius < 1 {
        1
    } else if raw_radius > MAX_TAPS - 1 {
        MAX_TAPS - 1
    } else {
        raw_radius
    }
}

/// Number of one-sided taps (center tap included) for a requested radius.
pub open spec fn tap_count_for(raw_radius: int) -> int {
    capped_radius(raw_radius) + 1
}

/// Number of one-sided taps of the kernel whose uncapped radius is
/// `raw_radius` (that is `ceil(3 * sigma)`, saturated to `usize`).
///
/// The radius is clamped to `1..=MAX_TAPS - 1`, and the center tap is added.
pub fn kernel_tap_count(raw_radius: usize) -> (taps: usize)
    ensures
        taps == tap_count_for(raw_radius as int),
        2 <= taps <= MAX_TAPS,
        1 <= raw_radius <= MAX_TAPS - 1 ==> taps == raw_radius + 1,
        raw_radius < 1 ==> taps == 2,
        raw_radius > MAX_TAPS - 1 ==> taps == MAX_TAPS,
{
    let radius: usize = if raw_radius < 1 {
        1
    } else if raw_radius > MAX_TAPS - 1 {
        MAX_TAPS - 1
    } else {
        raw_radius
    };
    radius + 1
}

/// Within the cap the kernel has one tap per unit of radius on each side
/// plus the center tap; below it the kernel has one side tap, above it
/// `MAX_TAPS` taps.
pub proof fn lemma_tap_count_closed_form(r: int)
    ensures
        1 <= r <= MAX_TAPS - 1 ==> tap_count_for(r) == r + 1,
        r < 1 ==> tap_count_for(r) == 2,
        r > MAX_TAPS - 1 ==> tap_count_for(r) == MAX_TAPS,
{
}

/// A wider requested radius never yields fewer taps, and every request
/// yields between 2 and `MAX_TAPS` taps.
pub proof fn lemma_tap_count_monotone(r1: int, r2: int)
    requires
        r1 <= r2,
    ensures
        tap_count_for(r1) <= tap_count_for(r2),
        2 <= tap_count_for(r1) <= MAX_TAPS,
{
}

/// What a blur request amounts to, before any GPU work is recorded.
#[derive(PartialEq, Eq, Structural, Debug, Clone, Copy)]
pub enum BlurAction {
    /// The region is empty: nothing is recorded.
    Skip,
    /// `sigma <= 0`: the source is copied unchanged into the destination.
    Copy,
    /// A horizontal pass into the intermediate texture, then a vertical pass
    /// from it into the destination.
    TwoPass,
}

/// The action taken for a `width` x `height` region; `identity` holds when
/// the requested standard deviation is `<= 0`.
pub open spec fn blur_action(width: u32, height: u32, identity: bool) -> BlurAction {
    if width == 0 || height == 0 {
        BlurAction::Skip
    } else if identity {
        BlurAction::Copy
    } else {
        BlurAction::TwoPass
    }
}

/// Decides what blurring a `width` x `height` region takes.
///
/// `identity` is the outcome of the caller's `sigma <= 0.0` test: an empty
/// region records nothing, a non-positive sigma is an identity copy, and
/// any other request is a two-pass blur.
pub fn plan_blur(width: u32, height: u32, identity: bool) -> (action: BlurAction)
    ensures
        action == blur_action(width, height, identity),
        (action == BlurAction::Skip) <==> (width == 0 || height == 0),
        width > 0 && height > 0 && identity ==> action == BlurAction::Copy,
        width > 0 && height > 0 && !identity ==> action == BlurAction::TwoPass,
{
    if width == 0 || height == 0 {
        BlurAction::Skip
    } else if identity {
        BlurAction::Copy
    } else {
        BlurAction::TwoPass
    }
}

/// An empty region is skipped whatever the sigma; any non-empty region, of
/// any aspect ratio, is copied when `identity` holds and blurred in two
/// passes otherwise.
pub proof fn lemma_blur_action_by_region(width: u32, height: u32, identity: bool)
    ensures
        (blur_action(width, height, identity) == BlurAction::Skip) <==> (width == 0 || height == 0),
        width > 0 && height > 0 && identity ==> blur_action(width, height, identity) == BlurAction::Copy,
        width > 0 && height > 0 && !identity ==> blur_action(width, height, identity) == BlurAction::TwoPass,
{
}

/// The direction along which one pass of the separable blur samples.
#[derive(PartialEq, Eq, Structural, Debug, Clone, Copy)]
pub enum BlurPass {
    /// Samples along the x axis (source into intermediate).
    Horizontal,
    /// Samples along the y axis (intermediate into destination).
    Vertical,
}

/// Uniform parameters of one blur pass, in the order the shader reads them;
/// the caller inserts the one padding word between `tap_count` and
/// `weights` that the uniform layout needs.
///
/// `direction` is the texel step between taps, `tap_count` the number of
/// one-sided taps in use, and `weights[i][0]` the weight of tap `i`; the
/// other three lanes of each entry are padding for the 16-byte array stride
/// of uniform buffers.
pub struct BlurParams<T> {
    pub direction: [T; 2],
    pub tap_count: u32,
    pub weights: [[T; 4]; 65],
}

/// The padded weight table holding `kernel` one tap per entry, followed by
/// zero entries.
pub open spec fn packed_weights_spec<T>(zero: T, kernel: Seq<T>, i: int) -> [T; 4] {
    if i < kernel.len() {
        [kernel[i], zero, zero, zero]
    } else {
        [zero, zero, zero, zero]
    }
}

/// Places the one-sided kernel `kernel` (center tap first) into the padded
/// weight table of the uniform buffer: tap `i` goes into lane 0 of entry `i`,
/// every other lane and every entry past the kernel is `zero`.
pub fn pack_weights<T: Copy>(zero: T, kernel: &[T]) -> (table: [[T; 4]; 65])
    requires
        kernel@.len() <= MAX_TAPS,
    ensures
        forall|i: int|
            0 <= i < MAX_TAPS ==> #[trigger] table@[i] == packed_weights_spec(zero, kernel@, i),
        forall|i: int|
            0 <= i < kernel@.len() ==> #[trigger] table@[i]@ == seq![kernel@[i], zero, zero, zero],
        forall|i: int|
            kernel@.len() <= i < MAX_TAPS ==> #[trigger] table@[i]@ == seq![zero, zero, zero, zero],
{
    let mut table: [[T; 4]; 65] = [[zero, zero, zero, zero]; 65];
    let n = kernel.len();
    for k in 0..n
        invariant
            n == kernel@.len(),
            n <= MAX_TAPS,
            forall|i: int|
                0 <= i < MAX_TAPS ==> #[trigger] table@[i] == (if i < k {
                    packed_weights_spec(zero, kernel@, i)
                } else {
                    [zero, zero, zero, zero]
                }),
    {
        table[k] = [kernel[k], zero, zero, zero];
    }
    table
}

/// Every tap of the kernel lands in lane 0 of its own entry, with zero in
/// the other lanes, and every entry past the kernel is all zero.
pub proof fn lemma_packed_weights_layout<T>(zero: T, kernel: Seq<T>)
    requires
        kernel.len() <= MAX_TAPS,
    ensures
        forall|i: int|
            0 <= i < kernel.len() ==> #[trigger] packed_weights_spec(zero, kernel, i)@ == seq![
                kernel[i],
                zero,
                zero,
                zero,
            ],
        forall|i: int|
            kernel.len() <= i < MAX_TAPS ==> #[trigger] packed_weights_spec(zero, kernel, i)@
                == seq![zero, zero, zero, zero],
{
}

impl<T: Copy> BlurParams<T> {
    /// Parameters of one directional pass: `step` is the texel size along
    /// the pass's axis (`1 / width` or `1 / height`), `zero` the step along
    /// the other axis.
    pub fn for_pass(
        pass: BlurPass,
        step: T,
        zero: T,
        tap_count: usize,
        weights: [[T; 4]; 65],
    ) -> (params: Self)
        requires
            tap_count <= MAX_TAPS,
        ensures
            params.direction@ == (match pass {
                BlurPass::Horizontal => seq![step, zero],
                BlurPass::Vertical => seq![zero, step],
            }),
            params.tap_count == tap_count,
            params.weights == weights,
    {
        let direction = match pass {
            BlurPass::Horizontal => [step, zero],
            BlurPass::Vertical => [zero, step],
        };
        BlurParams { direction, tap_count: tap_count as u32, weights }
    }

    /// Parameters of the single-tap pass that copies its input unchanged:
    /// no step, one tap, and a center weight of `one`.
    pub fn identity(zero: T, one: T) -> (params: Self)
        ensures
            params.direction@ == seq![zero, zero],
            params.tap_count == 1,
            params.weights@[0]@ == seq![one, zero, zero, zero],
            forall|i: int| 1 <= i < MAX_TAPS ==> #[trigger] params.weights@[i]@ == seq![zero, zero, zero, zero],
    {
        let mut weights: [[T; 4]; 65] = [[zero, zero, zero, zero]; 65];
        weights[0] = [one, zero, zero, zero];
        BlurParams { direction: [zero, zero], tap_count: 1, weights }
    }
}

/// The cached intermediate target of the horizontal pass, with the size it
/// was allocated for.
///
/// The item is reused as long as the requested size stays the same and is
/// replaced when it changes. An item is only ever cached for a non-empty
/// size.
pub struct IntermediateCache<T> {
    entry: Option<(T, u32, u32)>,
}

/// Whether a cache entry is empty or was allocated for a size of at least
/// one pixel in each direction.
pub open spec fn nonzero_size<T>(entry: Option<(T, u32, u32)>) -> bool {
    match entry {
        Some((_, w, h)) => w > 0 && h > 0,
        None => true,
    }
}

/// Whether a cache holding `entry` must allocate a new item for a
/// `width` x `height` request: when it is empty or holds another size.
pub open spec fn needs_realloc_spec<T>(entry: Option<(T, u32, u32)>, width: u32, height: u32) -> bool {
    match entry {
        Some((_, w, h)) => w != width || h != height,
        None => true,
    }
}

impl<T> View for IntermediateCache<T> {
    type V = Option<(T, u32, u32)>;

    closed spec fn view(&self) -> Option<(T, u32, u32)> {
        self.entry
    }
}

impl<T> IntermediateCache<T> {
    /// Every cache holds either nothing or an item for a non-empty size.
    #[verifier::type_invariant]
    spec fn well_formed(self) -> bool {
        nonzero_size(self.entry)
    }

    /// An empty cache: the first request allocates.
    pub fn new() -> (cache: Self)
        ensures
            cache@ is None,
    {
        IntermediateCache { entry: None }
    }

    /// Whether a `width` x `height` request must allocate a new item.
    pub fn needs_realloc(&self, width: u32, height: u32) -> (realloc: bool)
        ensures
            realloc == needs_realloc_spec(self@, width, height),
            nonzero_size(self@),
            self@ is None ==> realloc,
            (self@ matches Some((_, w, h)) && w == width && h == height) ==> !realloc,
            (self@ matches Some((_, w, h)) && (w != width || h != height)) ==> realloc,
    {
        proof {
            use_type_invariant(self);
        }
        match &self.entry {
            Some((_, w, h)) => *w != width || *h != height,
            None => true,
        }
    }

    /// Replaces the cached item by `item`, allocated for `width` x `height`,
    /// a non-empty size.
    pub fn store(&mut self, item: T, width: u32, height: u32)
        requires
            width > 0,
            height > 0,
        ensures
            final(self)@ == Some((item, width, height)),
    {
        self.entry = Some((item, width, height));
    }

    /// The cached item, if any.
    pub fn get(&self) -> (item: Option<&T>)
        ensures
            match self@ {
                Some((t, _, _)) => item == Some(&t),
                None => item is None,
            },
            nonzero_size(self@),
    {
        proof {
            use_type_invariant(self);
        }
        match &self.entry {
            Some((t, _, _)) => Some(t),
            None => None,
        }
    }
}

/// An empty cache allocates for every requested size.
pub proof fn lemma_empty_cache_allocates<T>(width: u32, height: u32)
    ensures
        needs_realloc_spec(None::<(T, u32, u32)>, width, height),
{
}

/// A cache that has just stored an item for a size serves a request for that
/// size without allocating again.
pub proof fn lemma_store_then_reuse<T>(item: T, width: u32, height: u32)
    ensures
        !needs_realloc_spec(Some((item, width, height)), width, height),
{
}

/// A cache holding an item for one size allocates for a request exactly
/// when the requested size differs.
pub proof fn lemma_realloc_iff_size_changes<T>(item: T, w: u32, h: u32, width: u32, height: u32)
    ensures
        needs_realloc_spec(Some((item, w, h)), width, height) <==> (w, h) != (width, height),
{
}

} // verus!
