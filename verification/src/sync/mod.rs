pub mod spinlock;
