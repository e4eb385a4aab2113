use vstd::prelude::*;

verus! {

/// Flow-control settings of a stream buffer.
///
/// The watermarks are fractions of the buffer's capacity in thousandths: a
/// `high_watermark_permille` of 800 is a high watermark of 0.8.
#[derive(Clone, Copy, Debug)]
pub struct BufferConfig {
    pub initial_size: u32,
    pub min_size: u32,
    pub max_size: u32,
    pub high_watermark_permille: u32,
    pub low_watermark_permille: u32,
    /// A byte budget carried over from the configuration. No budget is
    /// applied: `adapt` and drains size the capacity in slots alone, between
    /// the minimum and the maximum size.
    pub max_buffer_bytes: usize,
}

impl BufferConfig {
    /// Sizes that keep a buffer's capacity between the minimum and the maximum.
    pub open spec fn sizes_ordered(&self) -> bool {
        self.min_size <= self.initial_size <= self.max_size
    }
}

impl Default for BufferConfig {
    fn default() -> (r: Self)
        ensures
            r.initial_size == 128,
            r.min_size == 32,
            r.max_size == 1024,
            r.high_watermark_permille == 800,
            r.low_watermark_permille == 200,
            r.max_buffer_bytes == 10 * 1024 * 1024,
    {
        BufferConfig {
            initial_size: 128,
            min_size: 32,
            max_size: 1024,
            high_watermark_permille: 800,
            low_watermark_permille: 200,
            max_buffer_bytes: 10 * 1024 * 1024,
        }
    }
}

/// Whether `queued` out of `capacity` is above a watermark given in
/// thousandths (`queued / capacity > permille / 1000`); an empty capacity
/// with something queued counts as above any watermark.
pub open spec fn usage_above(queued: u32, capacity: u32, permille: u32) -> bool {
    queued * 1000 > permille * capacity
}

/// Whether `queued` out of `capacity` is below a watermark given in thousandths.
pub open spec fn usage_below(queued: u32, capacity: u32, permille: u32) -> bool {
    queued * 1000 < permille * capacity
}

/// Whether a buffer of this capacity and queue grows on `adapt`: its usage is
/// above the high watermark and it is below the maximum size.
pub open spec fn grows(capacity: u32, queued: u32, config: BufferConfig) -> bool {
    usage_above(queued, capacity, config.high_watermark_permille) && capacity < config.max_size
}

/// The capacity after `adapt`: 64 slots more, at most the maximum size, when
/// the buffer grows; unchanged otherwise.
pub open spec fn adapted_capacity(capacity: u32, queued: u32, config: BufferConfig) -> u32 {
    if grows(capacity, queued, config) {
        if capacity + 64 <= config.max_size {
            (capacity + 64) as u32
        } else {
            config.max_size
        }
    } else {
        capacity
    }
}

/// The capacity after one slot drains and leaves `queued` slots: when what is
/// queued, measured against the maximum size, is below the low watermark, it
/// shrinks by 64 slots, to no less than the minimum size; otherwise it stays.
pub open spec fn drained_capacity(capacity: u32, queued: u32, config: BufferConfig) -> u32 {
    if usage_below(queued, config.max_size, config.low_watermark_permille) {
        let reduced: int = if capacity >= 64 { capacity - 64 } else { 0 };
        if reduced >= config.min_size { reduced as u32 } else { config.min_size }
    } else {
        capacity
    }
}

/// Whether a buffer with this capacity and queue can take another packet.
pub open spec fn has_room(capacity: u32, queued: u32) -> bool {
    queued < capacity
}

/// The free slots of a buffer with this capacity and queue.
pub open spec fn remaining_slots(capacity: u32, queued: u32) -> u32 {
    if queued <= capacity { (capacity - queued) as u32 } else { 0 }
}

/// The capacity and queue after a packet is sent: one more slot queued,
/// stopping at `u32::MAX`.
pub open spec fn after_send(v: (u32, u32)) -> (u32, u32) {
    (v.0, if v.1 < u32::MAX { (v.1 + 1) as u32 } else { u32::MAX })
}

/// The capacity and queue after a slot drains: one slot fewer queued,
/// stopping at zero, and the capacity shrunk when usage fell low.
pub open spec fn after_drain(v: (u32, u32), config: BufferConfig) -> (u32, u32) {
    let queued: u32 = if v.1 > 0 { (v.1 - 1) as u32 } else { 0 };
    (drained_capacity(v.0, queued, config), queued)
}

/// The product of two `u32`s, which always fits in a `u64`.
fn wide_mul(a: u32, b: u32) -> (r: u64)
    ensures
        r == a * b,
{
    proof {
        assert(0 <= a * b <= 0xffff_ffff * 0xffff_ffff) by (nonlinear_arith)
            requires
                0 <= a <= 0xffff_ffff,
                0 <= b <= 0xffff_ffff,
        ;
    }
    (a as u64) * (b as u64)
}

/// A per-stream flow-control buffer whose capacity follows its usage.
pub struct AdaptiveBuffer {
    capacity: u32,
    queued: u32,
    config: BufferConfig,
}

impl View for AdaptiveBuffer {
    /// The capacity and the number of queued slots.
    type V = (u32, u32);

    closed spec fn view(&self) -> (u32, u32) {
        (self.capacity, self.queued)
    }
}

impl AdaptiveBuffer {
    /// The settings the buffer was made with.
    pub closed spec fn spec_config(&self) -> BufferConfig {
        self.config
    }

    pub fn new(config: BufferConfig) -> (r: Self)
        ensures
            r@ == (config.initial_size, 0u32),
            r.spec_config() == config,
    {
        let initial = config.initial_size;
        AdaptiveBuffer { capacity: initial, queued: 0, config }
    }

    pub fn can_accept(&self) -> (r: bool)
        ensures
            r == has_room(self@.0, self@.1),
    {
        self.queued < self.capacity
    }

    pub fn on_send(&mut self)
        ensures
            final(self)@ == after_send(old(self)@),
            final(self).spec_config() == old(self).spec_config(),
    {
        self.queued = self.queued.saturating_add(1);
    }

    pub fn on_drain(&mut self)
        ensures
            final(self)@ == after_drain(old(self)@, old(self).spec_config()),
            final(self).spec_config() == old(self).spec_config(),
    {
        self.queued = self.queued.saturating_sub(1);
        self.adapt_down();
    }

    pub fn adapt(&mut self)
        requires
            grows(old(self)@.0, old(self)@.1, old(self).spec_config()) ==> old(self)@.0 + 64 <= u32::MAX,
        ensures
            final(self)@ == (adapted_capacity(old(self)@.0, old(self)@.1, old(self).spec_config()), old(self)@.1),
            final(self).spec_config() == old(self).spec_config(),
    {
        let above = (self.queued as u64) * 1000 > wide_mul(self.config.high_watermark_permille, self.capacity);
        if above && self.capacity < self.config.max_size {
            let grown = self.capacity + 64;
            self.capacity = if grown < self.config.max_size { grown } else { self.config.max_size };
        }
    }

    fn adapt_down(&mut self)
        ensures
            final(self)@ == (drained_capacity(old(self)@.0, old(self)@.1, old(self).spec_config()), old(self)@.1),
            final(self).spec_config() == old(self).spec_config(),
    {
        let below = (self.queued as u64) * 1000 < wide_mul(self.config.low_watermark_permille, self.config.max_size);
        if below {
            let reduced = self.capacity.saturating_sub(64);
            self.capacity = if reduced > self.config.min_size { reduced } else { self.config.min_size };
        }
    }

    pub fn remaining(&self) -> (r: u32)
        ensures
            r == remaining_slots(self@.0, self@.1),
    {
        self.capacity.saturating_sub(self.queued)
    }

    pub fn capacity(&self) -> (r: u32)
        ensures
            r == self@.0,
    {
        self.capacity
    }

    pub fn reset(&mut self)
        ensures
            final(self)@ == (old(self).spec_config().initial_size, 0u32),
            final(self).spec_config() == old(self).spec_config(),
    {
        self.queued = 0;
        self.capacity = self.config.initial_size;
    }
}

/// With the minimum, initial and maximum sizes in order, a buffer's capacity
/// stays between the minimum and the maximum size through every operation:
/// it starts there, and neither `adapt` nor a drain moves it out.
pub proof fn lemma_capacity_stays_in_bounds(capacity: u32, queued: u32, config: BufferConfig)
    requires
        config.sizes_ordered(),
        config.min_size <= capacity <= config.max_size,
    ensures
        config.min_size <= config.initial_size <= config.max_size,
        config.min_size <= adapted_capacity(capacity, queued, config) <= config.max_size,
        config.min_size <= drained_capacity(capacity, queued, config) <= config.max_size,
{
}

/// A buffer can take another packet exactly when slots remain.
pub proof fn lemma_can_accept_iff_remaining(capacity: u32, queued: u32)
    ensures
        has_room(capacity, queued) <==> remaining_slots(capacity, queued) > 0,
{
}

/// A drain undoes a send's queueing: sending then draining leaves the queue
/// as it was, below `u32::MAX`, and a capacity that started between the
/// minimum and the maximum size stays there.
pub proof fn lemma_drain_undoes_send(v: (u32, u32), config: BufferConfig)
    requires
        v.1 < u32::MAX,
    ensures
        after_drain(after_send(v), config).1 == v.1,
        config.min_size <= v.0 <= config.max_size ==> config.min_size <= after_drain(after_send(v), config).0 <= config.max_size,
{
}

} // verus!
