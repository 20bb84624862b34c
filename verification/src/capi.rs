//! The configuration record as a C caller passes it, and its conversion.

use vstd::prelude::*;

verus! {

/// The flat configuration record of the C interface. The optional fields
/// use a sentinel encoding: a zero or negative value means "not set".
pub struct PoolConfig {
    pub n_workers: u16,
    pub max_jobs: i32,
    pub incoming_buf_size: i32,
}

/// What an optional sentinel field converts to: absent unless positive,
/// else the value's low 16 bits.
pub open spec fn sentinel_field(v: i32) -> Option<u16> {
    if v > 0 {
        Some(((v as int) % 0x10000) as u16)
    } else {
        None
    }
}

impl PoolConfig {
    /// Maps the sentinel encoding onto the library's configuration record.
    /// A positive optional field keeps only its low 16 bits, the width the
    /// library's record stores.
    pub fn convert(&self) -> (c: crate::config::PoolConfig)
        ensures
            c.n_workers == self.n_workers,
            c.max_jobs == sentinel_field(self.max_jobs),
            c.incoming_buf_size == sentinel_field(self.incoming_buf_size),
    {
        crate::config::PoolConfig {
            n_workers: self.n_workers,
            max_jobs: if self.max_jobs > 0 {
                Some((self.max_jobs % 0x10000) as u16)
            } else {
                None
            },
            incoming_buf_size: if self.incoming_buf_size > 0 {
                Some((self.incoming_buf_size % 0x10000) as u16)
            } else {
                None
            },
        }
    }
}

} // verus!
