use crate::disk_cache::PurgeType;
use crate::error::{CacheError, CacheErrorView, ErrorType};
use crate::handle_miss::MissFinishType;
use vstd::prelude::*;

verus! {

/// How writes should propagate when the origin is fetched on a miss.
#[derive(Clone, Copy, Debug, PartialEq, Eq, Structural)]
pub enum WritePolicy {
    /// Only write into the primary local cache (default, simplest).
    PrimaryOnly,
    /// Write into both primary and secondary (best-effort on secondary).
    WriteThroughBoth,
}

/// One of the two storage backends.
#[derive(Clone, Copy, Debug, PartialEq, Eq, Structural)]
pub enum Tier {
    Primary,
    Secondary,
}

/// What a tiered operation does next: ask one more backend, or answer.
#[derive(Debug, PartialEq, Eq)]
pub enum Routed<T> {
    /// Run the operation on this backend and come back with its result.
    Ask(Tier),
    /// The operation is over; this is its result.
    Answer(Result<T, CacheError>),
}

/// The miss handler of a tiered storage.
#[derive(Debug, PartialEq, Eq)]
pub enum MissRoute<M> {
    /// The handler of the primary backend alone.
    Single(M),
    /// A handler that writes to both backends.
    Fanout(FanoutMiss<M>),
}

/// Tiered storage: a primary backend and, optionally, a secondary one
/// beneath it.
///
/// - On `lookup`: try primary, then secondary. A hit in the secondary is
///   served from it as it is.
/// - On `get_miss_handler`: by default only the primary is written; with
///   `WritePolicy::WriteThroughBoth` every write goes to both.
///
/// The backends themselves stay with the caller. Each operation is a
/// function from the results gathered so far to the next step; `None`
/// stands for a backend that has not been asked yet.
#[derive(Clone, Copy, Debug, PartialEq, Eq, Structural)]
pub struct TieredStorage {
    pub has_secondary: bool,
    pub write_policy: WritePolicy,
}

/// Fan-out miss handler that writes to primary and (optionally) secondary.
/// - Primary failure is fatal.
/// - Secondary failure is ignored (best-effort write-through).
#[derive(Debug, PartialEq, Eq)]
pub struct FanoutMiss<M> {
    pub primary: Option<M>,
    pub secondary: Option<M>,
    pub created_bytes_primary: usize,
}

/// The value of a purge result: a failed purge has removed nothing.
pub open spec fn purged_flag(result: Result<bool, CacheError>) -> bool {
    match result {
        Ok(existed) => existed,
        Err(_) => false,
    }
}

/// The failure of a fan-out handler that has lost its primary handler.
pub open spec fn missing_primary(context: Seq<char>) -> CacheErrorView {
    CacheErrorView { etype: ErrorType::InternalError, context, retry: false }
}

impl TieredStorage {
    /// A tiered storage with or without a secondary backend.
    pub fn new(has_secondary: bool, write_policy: WritePolicy) -> (t: TieredStorage)
        ensures
            t == (TieredStorage { has_secondary, write_policy }),
    {
        TieredStorage { has_secondary, write_policy }
    }

    /// Whether misses are written to both backends.
    pub open spec fn fans_out(&self) -> bool {
        self.write_policy == WritePolicy::WriteThroughBoth && self.has_secondary
    }

    /// Routes a lookup: the primary is asked first. Its hit, or its failure,
    /// is the answer. On a miss the secondary is asked, if there is one, and
    /// its result is the answer, whatever it is; a hit there is not copied
    /// into the primary.
    pub fn lookup<H>(
        &self,
        primary: Option<Result<Option<H>, CacheError>>,
        secondary: Option<Result<Option<H>, CacheError>>,
    ) -> (r: Routed<Option<H>>)
        ensures
            r == (match primary {
                None => Routed::Ask(Tier::Primary),
                Some(Ok(None)) => if self.has_secondary {
                    match secondary {
                        None => Routed::Ask(Tier::Secondary),
                        Some(result) => Routed::Answer(result),
                    }
                } else {
                    Routed::Answer(Ok(None))
                },
                Some(found) => Routed::Answer(found),
            }),
    {
        match primary {
            None => Routed::Ask(Tier::Primary),
            Some(Ok(None)) => {
                if self.has_secondary {
                    match secondary {
                        None => Routed::Ask(Tier::Secondary),
                        Some(result) => Routed::Answer(result),
                    }
                } else {
                    Routed::Answer(Ok(None))
                }
            },
            Some(found) => Routed::Answer(found),
        }
    }

    /// Routes the making of a miss handler: the primary always makes one,
    /// and its failure is the answer. Unless writes go to both backends,
    /// that handler is the answer. Otherwise the secondary is asked for a
    /// handler too, and the answer is a fan-out handler over both; a
    /// secondary that cannot make one is left out.
    pub fn get_miss_handler<M>(
        &self,
        primary: Option<Result<M, CacheError>>,
        secondary: Option<Result<M, CacheError>>,
    ) -> (r: Routed<MissRoute<M>>)
        ensures
            r == (match primary {
                None => Routed::Ask(Tier::Primary),
                Some(Err(e)) => Routed::Answer(Err(e)),
                Some(Ok(p)) => if self.fans_out() {
                    match secondary {
                        None => Routed::Ask(Tier::Secondary),
                        Some(Ok(s)) => Routed::Answer(
                            Ok(
                                MissRoute::Fanout(
                                    FanoutMiss {
                                        primary: Some(p),
                                        secondary: Some(s),
                                        created_bytes_primary: 0,
                                    },
                                ),
                            ),
                        ),
                        Some(Err(_)) => Routed::Answer(
                            Ok(
                                MissRoute::Fanout(
                                    FanoutMiss {
                                        primary: Some(p),
                                        secondary: None,
                                        created_bytes_primary: 0,
                                    },
                                ),
                            ),
                        ),
                    }
                } else {
                    Routed::Answer(Ok(MissRoute::Single(p)))
                },
            }),
    {
        match primary {
            None => Routed::Ask(Tier::Primary),
            Some(Err(e)) => Routed::Answer(Err(e)),
            Some(Ok(p)) => {
                let both = match self.write_policy {
                    WritePolicy::WriteThroughBoth => self.has_secondary,
                    WritePolicy::PrimaryOnly => false,
                };
                if both {
                    match secondary {
                        None => Routed::Ask(Tier::Secondary),
                        Some(Ok(s)) => Routed::Answer(
                            Ok(
                                MissRoute::Fanout(
                                    FanoutMiss {
                                        primary: Some(p),
                                        secondary: Some(s),
                                        created_bytes_primary: 0,
                                    },
                                ),
                            ),
                        ),
                        Some(Err(_)) => Routed::Answer(
                            Ok(
                                MissRoute::Fanout(
                                    FanoutMiss {
                                        primary: Some(p),
                                        secondary: None,
                                        created_bytes_primary: 0,
                                    },
                                ),
                            ),
                        ),
                    }
                } else {
                    Routed::Answer(Ok(MissRoute::Single(p)))
                }
            },
        }
    }

    /// Routes a purge. An eviction touches the primary only: the secondary
    /// is a larger tier under pressure of its own. An invalidation goes to
    /// both, and the object existed if either backend removed it. A purge
    /// never fails: a backend that fails has removed nothing.
    pub fn purge(
        &self,
        purge_type: PurgeType,
        primary: Option<Result<bool, CacheError>>,
        secondary: Option<Result<bool, CacheError>>,
    ) -> (r: Routed<bool>)
        ensures
            r == (match primary {
                None => Routed::Ask(Tier::Primary),
                Some(p) => if purge_type == PurgeType::Invalidation && self.has_secondary {
                    match secondary {
                        None => Routed::Ask(Tier::Secondary),
                        Some(s) => Routed::Answer(Ok(purged_flag(p) || purged_flag(s))),
                    }
                } else {
                    Routed::Answer(Ok(purged_flag(p)))
                },
            }),
    {
        match primary {
            None => Routed::Ask(Tier::Primary),
            Some(p) => {
                let existed: bool = match p {
                    Ok(x) => x,
                    Err(_) => false,
                };
                let both = match purge_type {
                    PurgeType::Invalidation => self.has_secondary,
                    PurgeType::Eviction => false,
                };
                if both {
                    match secondary {
                        None => Routed::Ask(Tier::Secondary),
                        Some(Ok(x)) => Routed::Answer(Ok(existed || x)),
                        Some(Err(_)) => Routed::Answer(Ok(existed)),
                    }
                } else {
                    Routed::Answer(Ok(existed))
                }
            },
        }
    }

    /// Routes a meta update: the primary decides, and its failure is the
    /// answer. The secondary, if there is one, is updated as well; what it
    /// updated counts, what it failed on does not.
    pub fn update_meta(
        &self,
        primary: Option<Result<bool, CacheError>>,
        secondary: Option<Result<bool, CacheError>>,
    ) -> (r: Routed<bool>)
        ensures
            r == (match primary {
                None => Routed::Ask(Tier::Primary),
                Some(Err(e)) => Routed::Answer(Err(e)),
                Some(Ok(updated)) => if self.has_secondary {
                    match secondary {
                        None => Routed::Ask(Tier::Secondary),
                        Some(s) => Routed::Answer(Ok(updated || purged_flag(s))),
                    }
                } else {
                    Routed::Answer(Ok(updated))
                },
            }),
    {
        match primary {
            None => Routed::Ask(Tier::Primary),
            Some(Err(e)) => Routed::Answer(Err(e)),
            Some(Ok(updated)) => {
                if self.has_secondary {
                    match secondary {
                        None => Routed::Ask(Tier::Secondary),
                        Some(Ok(x)) => Routed::Answer(Ok(updated || x)),
                        Some(Err(_)) => Routed::Answer(Ok(updated)),
                    }
                } else {
                    Routed::Answer(Ok(updated))
                }
            },
        }
    }
}

impl<M> FanoutMiss<M> {
    /// Routes the writing of one chunk: it goes to the primary handler, and
    /// a failure there is the answer; then to the secondary handler, if
    /// there is one, whose failure is ignored. A handler without a primary
    /// cannot write.
    pub fn write_body(
        &self,
        primary: Option<Result<(), CacheError>>,
        secondary: Option<Result<(), CacheError>>,
    ) -> (r: Routed<()>)
        ensures
            match primary {
                None => if self.primary is Some {
                    r == Routed::<()>::Ask(Tier::Primary)
                } else {
                    r matches Routed::Answer(Err(e)) && e@ == missing_primary(
                        "primary miss handler missing"@,
                    )
                },
                Some(Err(e)) => r == Routed::<()>::Answer(Err(e)),
                Some(Ok(())) => r == (if self.secondary is Some && secondary is None {
                    Routed::<()>::Ask(Tier::Secondary)
                } else {
                    Routed::<()>::Answer(Ok(()))
                }),
            },
    {
        match primary {
            None => {
                if self.primary.is_none() {
                    Routed::Answer(
                        Err(CacheError::internal("primary miss handler missing".to_owned())),
                    )
                } else {
                    Routed::Ask(Tier::Primary)
                }
            },
            Some(Err(e)) => Routed::Answer(Err(e)),
            Some(Ok(())) => {
                if self.secondary.is_some() && secondary.is_none() {
                    Routed::Ask(Tier::Secondary)
                } else {
                    Routed::Answer(Ok(()))
                }
            },
        }
    }

    /// Routes the finishing: the primary handler is finished first, and its
    /// result is the answer, for eviction goes by what the primary created.
    /// The secondary handler, if there is one left, is finished after it,
    /// and its result is ignored. A handler without a primary cannot finish.
    pub fn finish(
        &mut self,
        primary: Option<Result<MissFinishType, CacheError>>,
        secondary: Option<Result<MissFinishType, CacheError>>,
    ) -> (r: Routed<MissFinishType>)
        ensures
            final(self).primary == old(self).primary,
            final(self).secondary == old(self).secondary,
            match primary {
                None => if old(self).primary is Some {
                    r == Routed::<MissFinishType>::Ask(Tier::Primary)
                } else {
                    r matches Routed::Answer(Err(e)) && e@ == missing_primary(
                        "primary miss handler missing at finish"@,
                    )
                },
                Some(Err(e)) => r == Routed::<MissFinishType>::Answer(Err(e)),
                Some(Ok(done)) => r == (if old(self).secondary is Some && secondary is None {
                    Routed::<MissFinishType>::Ask(Tier::Secondary)
                } else {
                    Routed::<MissFinishType>::Answer(Ok(done))
                }),
            },
            final(self).created_bytes_primary == (match primary {
                Some(Ok(MissFinishType::Created(n))) => n,
                _ => old(self).created_bytes_primary,
            }),
    {
        match primary {
            None => {
                if self.primary.is_none() {
                    Routed::Answer(
                        Err(
                            CacheError::internal(
                                "primary miss handler missing at finish".to_owned(),
                            ),
                        ),
                    )
                } else {
                    Routed::Ask(Tier::Primary)
                }
            },
            Some(Err(e)) => Routed::Answer(Err(e)),
            Some(Ok(done)) => {
                match done {
                    MissFinishType::Created(n) => {
                        self.created_bytes_primary = n;
                    },
                    MissFinishType::Appended(_) => {},
                }
                if self.secondary.is_some() && secondary.is_none() {
                    Routed::Ask(Tier::Secondary)
                } else {
                    Routed::Answer(Ok(done))
                }
            },
        }
    }

    /// Partial reads of a body under way are not supported: there is no tag.
    pub fn streaming_write_tag(&self) -> (r: Option<Vec<u8>>)
        ensures
            r is None,
    {
        None
    }
}

} // verus!
