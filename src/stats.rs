use vstd::prelude::*;

verus! {

/// Live progress of one encode, in integer units.
///
/// Rates are kept in thousandths (`fps_milli` is frames per second times
/// 1000, `bitrate_milli` is kbit/s times 1000), durations in milliseconds,
/// and the derived progress in hundredths of a percent.
#[derive(Debug, Clone, Copy, PartialEq, Eq, Structural)]
pub struct EncodingStats {
    pub frame: u64,
    pub total_frames: Option<u64>,
    pub fps_milli: u64,
    pub bitrate_milli: u64,
    pub time_encoded_ms: u64,
    pub total_duration_ms: Option<u64>,
    /// Progress in hundredths of a percent (10000 means 100%).
    pub progress_centi: u128,
    /// Estimated time left, in milliseconds.
    pub eta_ms: Option<u128>,
}

/// Progress that `calculate_progress` derives from the other fields:
/// by frames when a positive total is known, else by encoded time when a
/// positive total duration is known, else the previous value.
pub open spec fn derived_progress(s: EncodingStats) -> u128 {
    match s.total_frames {
        Some(total) => if total > 0 {
            (10000 * s.frame as int / total as int) as u128
        } else {
            s.progress_centi
        },
        None => match s.total_duration_ms {
            Some(d) => if d > 0 {
                (10000 * s.time_encoded_ms as int / d as int) as u128
            } else {
                s.progress_centi
            },
            None => s.progress_centi,
        },
    }
}

/// Remaining frames over the frame rate, when both are known.
pub open spec fn derived_eta(s: EncodingStats) -> Option<u128> {
    match s.total_frames {
        Some(total) => if s.fps_milli > 0 {
            let remaining: int = if total >= s.frame { total - s.frame } else { 0 };
            Some((remaining * 1000000 / s.fps_milli as int) as u128)
        } else {
            None
        },
        None => None,
    }
}

impl EncodingStats {
    /// Statistics with no totals and nothing encoded.
    pub open spec fn spec_empty() -> EncodingStats {
        EncodingStats {
            frame: 0,
            total_frames: None,
            fps_milli: 0,
            bitrate_milli: 0,
            time_encoded_ms: 0,
            total_duration_ms: None,
            progress_centi: 0,
            eta_ms: None,
        }
    }

    pub open spec fn with_totals_spec(
        total_frames: Option<u64>,
        total_duration_ms: Option<u64>,
    ) -> EncodingStats {
        EncodingStats {
            frame: 0,
            total_frames,
            fps_milli: 0,
            bitrate_milli: 0,
            time_encoded_ms: 0,
            total_duration_ms,
            progress_centi: 0,
            eta_ms: None,
        }
    }

    /// Fresh statistics with the given totals and nothing encoded yet.
    pub fn with_totals(total_frames: Option<u64>, total_duration_ms: Option<u64>) -> (r: Self)
        ensures
            r == (EncodingStats {
                frame: 0,
                total_frames,
                fps_milli: 0,
                bitrate_milli: 0,
                time_encoded_ms: 0,
                total_duration_ms,
                progress_centi: 0,
                eta_ms: None,
            }),
    {
        EncodingStats {
            frame: 0,
            total_frames,
            fps_milli: 0,
            bitrate_milli: 0,
            time_encoded_ms: 0,
            total_duration_ms,
            progress_centi: 0,
            eta_ms: None,
        }
    }

    /// Recompute the progress percentage from frames or encoded time.
    pub fn calculate_progress(&mut self)
        ensures
            *final(self) == (EncodingStats { progress_centi: derived_progress(*old(self)), ..*old(self) }),
    {
        match self.total_frames {
            Some(total) => {
                if total > 0 {
                    assert(10000 * (self.frame as int) / (total as int) <= 10000 * (self.frame as int))
                        by (nonlinear_arith)
                        requires total > 0, self.frame >= 0;
                    self.progress_centi = (10000u128 * self.frame as u128) / total as u128;
                }
            },
            None => {
                if let Some(d) = self.total_duration_ms {
                    if d > 0 {
                        assert(10000 * (self.time_encoded_ms as int) / (d as int) <= 10000 * (self.time_encoded_ms as int))
                            by (nonlinear_arith)
                            requires d > 0, self.time_encoded_ms >= 0;
                        self.progress_centi = (10000u128 * self.time_encoded_ms as u128) / d as u128;
                    }
                }
            },
        }
    }

    /// Recompute the time left from the remaining frames and the frame rate.
    pub fn calculate_eta(&mut self)
        ensures
            *final(self) == (EncodingStats { eta_ms: derived_eta(*old(self)), ..*old(self) }),
    {
        match self.total_frames {
            Some(total) => {
                if self.fps_milli > 0 {
                    let remaining: u64 = if total >= self.frame { total - self.frame } else { 0 };
                    assert(remaining as int * 1000000 / (self.fps_milli as int) <= remaining as int * 1000000)
                        by (nonlinear_arith)
                        requires self.fps_milli > 0, remaining >= 0;
                    self.eta_ms = Some((remaining as u128 * 1000000u128) / self.fps_milli as u128);
                } else {
                    self.eta_ms = None;
                }
            },
            None => {
                self.eta_ms = None;
            },
        }
    }

    /// Recompute both derived fields.
    pub fn update(&mut self)
        ensures
            *final(self) == (EncodingStats {
                progress_centi: derived_progress(*old(self)),
                eta_ms: derived_eta(*old(self)),
                ..*old(self)
            }),
    {
        self.calculate_progress();
        self.calculate_eta();
    }
}

impl Default for EncodingStats {
    fn default() -> (r: Self)
        ensures
            r == (EncodingStats {
                frame: 0,
                total_frames: None,
                fps_milli: 0,
                bitrate_milli: 0,
                time_encoded_ms: 0,
                total_duration_ms: None,
                progress_centi: 0,
                eta_ms: None,
            }),
    {
        EncodingStats::with_totals(None, None)
    }
}

} // verus!
