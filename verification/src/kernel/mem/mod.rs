pub mod pagetable;
