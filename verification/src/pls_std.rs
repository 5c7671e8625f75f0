//! Helper blocks for user programs: bit access on machine words,
//! edge-detecting triggers, and the classic IEC timers.

pub mod bitword;
pub mod timers;
pub mod trigers;

pub use bitword::BitWord;
pub use bitword::Overflow;
pub use bitword::to_reg_i128;
pub use bitword::to_reg_i32;
pub use bitword::to_reg_i64;
pub use bitword::to_reg_u128;
pub use bitword::to_reg_u32;
pub use bitword::to_reg_u64;
pub use timers::Tof;
pub use timers::Ton;
pub use timers::Tp;
pub use trigers::FTrig;
pub use trigers::RTrig;
pub use trigers::Rs;
