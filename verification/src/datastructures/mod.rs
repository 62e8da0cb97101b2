pub mod ringbuffer;
pub mod spscqueue;
pub mod buffered_queue;
