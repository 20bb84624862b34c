//! The pool's configuration record, its builder, and its validation.

use vstd::prelude::*;

verus! {

/// Configuration for a pool: how many worker threads to spawn, an optional
/// cap on outstanding (queued plus running) jobs, and an optional bound on
/// the submission queue's capacity.
#[derive(Clone, Copy, Debug)]
pub struct PoolConfig {
    pub n_workers: u16,
    pub max_jobs: Option<u16>,
    pub incoming_buf_size: Option<u16>,
}

/// The decimal digit characters of `n`, most significant first.
pub open spec fn decimal(n: nat) -> Seq<char>
    decreases n,
{
    if n < 10 {
        seq![digit_char(n)]
    } else {
        decimal(n / 10).push(digit_char(n % 10))
    }
}

/// The character for a single decimal digit.
pub open spec fn digit_char(d: nat) -> char {
    if d == 0 {
        '0'
    } else if d == 1 {
        '1'
    } else if d == 2 {
        '2'
    } else if d == 3 {
        '3'
    } else if d == 4 {
        '4'
    } else if d == 5 {
        '5'
    } else if d == 6 {
        '6'
    } else if d == 7 {
        '7'
    } else if d == 8 {
        '8'
    } else {
        '9'
    }
}

/// The message reported when a job cap of `m` undercuts a worker count of `n`.
pub open spec fn max_jobs_message(m: nat, n: nat) -> Seq<char> {
    "Max number of jobs ("@ + decimal(m) + ") is lower than the number of workers ("@ + decimal(
        n,
    ) + ")"@
}

impl PoolConfig {
    /// A builder preloaded with the default configuration.
    pub fn builder() -> (b: PoolConfigBuilder)
        ensures
            b.as_config() == (PoolConfig {
                n_workers: 16,
                max_jobs: None,
                incoming_buf_size: None,
            }),
    {
        PoolConfigBuilder { n_workers: 16, max_jobs: None, incoming_buf_size: None }
    }

    /// A configuration is accepted when it asks for at least one worker and
    /// does not cap the jobs below the number of workers.
    pub open spec fn is_valid(self) -> bool {
        self.n_workers >= 1 && match self.max_jobs {
            Some(m) => m >= self.n_workers,
            None => true,
        }
    }

    /// The message a rejected configuration is reported with.
    pub open spec fn rejection_message(self) -> Seq<char> {
        if self.n_workers == 0 {
            "Invalid pool size: 0"@
        } else {
            match self.max_jobs {
                Some(m) => max_jobs_message(m as nat, self.n_workers as nat),
                None => Seq::<char>::empty(),
            }
        }
    }

    /// Accepts exactly the valid configurations; a rejection carries a
    /// human-readable message naming the offending values.
    pub fn validate(&self) -> (r: Result<(), String>)
        ensures
            r is Ok <==> self.is_valid(),
            r matches Err(e) ==> e@ == self.rejection_message(),
    {
        if self.n_workers == 0 {
            return Err(String::from_str("Invalid pool size: 0"));
        }
        if let Some(max) = self.max_jobs {
            if max < self.n_workers {
                let mut msg = String::from_str("Max number of jobs (");
                let max_digits = decimal_string(max);
                msg.append(max_digits.as_str());
                msg.append(") is lower than the number of workers (");
                let workers_digits = decimal_string(self.n_workers);
                msg.append(workers_digits.as_str());
                msg.append(")");
                return Err(msg);
            }
        }
        Ok(())
    }
}

impl Default for PoolConfig {
    /// The default configuration: 16 workers, no job cap, an unbounded queue.
    fn default() -> (c: Self)
        ensures
            c == (PoolConfig { n_workers: 16, max_jobs: None, incoming_buf_size: None }),
    {
        PoolConfig::builder().build()
    }
}

/// A single decimal digit as a string slice.
fn digit_str(d: u16) -> (s: &'static str)
    requires
        d < 10,
    ensures
        s@ == seq![digit_char(d as nat)],
{
    proof {
        reveal_strlit("0");
        reveal_strlit("1");
        reveal_strlit("2");
        reveal_strlit("3");
        reveal_strlit("4");
        reveal_strlit("5");
        reveal_strlit("6");
        reveal_strlit("7");
        reveal_strlit("8");
        reveal_strlit("9");
    }
    let s = if d == 0 {
        "0"
    } else if d == 1 {
        "1"
    } else if d == 2 {
        "2"
    } else if d == 3 {
        "3"
    } else if d == 4 {
        "4"
    } else if d == 5 {
        "5"
    } else if d == 6 {
        "6"
    } else if d == 7 {
        "7"
    } else if d == 8 {
        "8"
    } else {
        "9"
    };
    proof {
        assert(s@ =~= seq![digit_char(d as nat)]);
    }
    s
}

/// Renders `n` in decimal.
fn decimal_string(n: u16) -> (s: String)
    ensures
        s@ == decimal(n as nat),
    decreases n,
{
    if n < 10 {
        String::from_str(digit_str(n))
    } else {
        let mut s = decimal_string(n / 10);
        s.append(digit_str(n % 10));
        proof {
            assert(s@ =~= decimal(n as nat));
        }
        s
    }
}

/// Accumulates the fields of a [`PoolConfig`] before construction.
pub struct PoolConfigBuilder {
    n_workers: u16,
    max_jobs: Option<u16>,
    incoming_buf_size: Option<u16>,
}

impl PoolConfigBuilder {
    /// The configuration this builder currently holds.
    pub closed spec fn as_config(self) -> PoolConfig {
        PoolConfig {
            n_workers: self.n_workers,
            max_jobs: self.max_jobs,
            incoming_buf_size: self.incoming_buf_size,
        }
    }

    /// Sets the number of workers, consuming the builder.
    pub fn n_workers(self, n: u16) -> (b: Self)
        ensures
            b.as_config() == (PoolConfig {
                n_workers: n,
                max_jobs: self.as_config().max_jobs,
                incoming_buf_size: self.as_config().incoming_buf_size,
            }),
    {
        PoolConfigBuilder {
            n_workers: n,
            max_jobs: self.max_jobs,
            incoming_buf_size: self.incoming_buf_size,
        }
    }

    /// Sets the number of workers in place.
    pub fn set_n_workers(&mut self, n: u16) -> (r: &mut Self)
        ensures
            r.as_config() == (PoolConfig {
                n_workers: n,
                max_jobs: old(self).as_config().max_jobs,
                incoming_buf_size: old(self).as_config().incoming_buf_size,
            }),
            *final(self) == *final(r),
    {
        self.n_workers = n;
        self
    }

    /// Caps the outstanding jobs, consuming the builder.
    pub fn max_jobs(self, n: u16) -> (b: Self)
        ensures
            b.as_config() == (PoolConfig {
                n_workers: self.as_config().n_workers,
                max_jobs: Some(n),
                incoming_buf_size: self.as_config().incoming_buf_size,
            }),
    {
        PoolConfigBuilder {
            n_workers: self.n_workers,
            max_jobs: Some(n),
            incoming_buf_size: self.incoming_buf_size,
        }
    }

    /// Caps the outstanding jobs in place.
    pub fn set_max_jobs(&mut self, n: u16) -> (r: &mut Self)
        ensures
            r.as_config() == (PoolConfig {
                n_workers: old(self).as_config().n_workers,
                max_jobs: Some(n),
                incoming_buf_size: old(self).as_config().incoming_buf_size,
            }),
            *final(self) == *final(r),
    {
        self.max_jobs = Some(n);
        self
    }

    /// Bounds the submission queue, consuming the builder.
    pub fn incoming_buf_size(self, n: u16) -> (b: Self)
        ensures
            b.as_config() == (PoolConfig {
                n_workers: self.as_config().n_workers,
                max_jobs: self.as_config().max_jobs,
                incoming_buf_size: Some(n),
            }),
    {
        PoolConfigBuilder {
            n_workers: self.n_workers,
            max_jobs: self.max_jobs,
            incoming_buf_size: Some(n),
        }
    }

    /// Bounds the submission queue in place.
    pub fn set_incoming_buf_size(&mut self, n: u16) -> (r: &mut Self)
        ensures
            r.as_config() == (PoolConfig {
                n_workers: old(self).as_config().n_workers,
                max_jobs: old(self).as_config().max_jobs,
                incoming_buf_size: Some(n),
            }),
            *final(self) == *final(r),
    {
        self.incoming_buf_size = Some(n);
        self
    }

    /// Finishes the builder.
    pub fn build(self) -> (c: PoolConfig)
        ensures
            c == self.as_config(),
    {
        PoolConfig {
            n_workers: self.n_workers,
            incoming_buf_size: self.incoming_buf_size,
            max_jobs: self.max_jobs,
        }
    }
}

} // verus!
