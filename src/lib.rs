//! A hybrid logical clock: a timestamp made of a physical wall-clock reading
//! and a logical counter that breaks ties between events sharing one reading.

mod clock;

pub use clock::HybridLogicalClock;
pub use clock::{
    lemma_concurrent_implies_same_physical, lemma_concurrent_symmetric, lemma_order_total,
    lemma_update_orders_after_inputs, max_u32, max_u64, saturating_advance,
};
