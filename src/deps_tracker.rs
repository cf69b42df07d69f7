use vstd::prelude::*;
use crate::messages::{DepsCompilationStep, DepsStatusInfo};

verus! {

/// Progress of the background dependency build, as clients see it.
#[derive(Debug, Clone)]
pub struct DepsCompilationTracker {
    all_present: bool,
    compiling: bool,
    current_dep: Option<String>,
    current_step: Option<DepsCompilationStep>,
    completed_count: usize,
    total_count: usize,
}

impl DepsCompilationTracker {
    /// The state as reported to clients.
    pub closed spec fn view(&self) -> DepsStatusInfo {
        DepsStatusInfo {
            all_present: self.all_present,
            compiling: self.compiling,
            current_dep: self.current_dep,
            current_step: self.current_step,
            completed_count: self.completed_count,
            total_count: self.total_count,
        }
    }

    /// Nothing known yet: not present, not compiling.
    pub fn new() -> (r: Self)
        ensures
            r@ == (DepsStatusInfo {
                all_present: false,
                compiling: false,
                current_dep: None,
                current_step: None,
                completed_count: 0,
                total_count: 0,
            }),
    {
        DepsCompilationTracker {
            all_present: false,
            compiling: false,
            current_dep: None,
            current_step: None,
            completed_count: 0,
            total_count: 0,
        }
    }

    /// A copy of the current state.
    pub fn get_status(&self) -> (r: DepsStatusInfo)
        ensures
            r == self@,
    {
        let current_dep = match &self.current_dep {
            None => None,
            Some(d) => Some(d.clone()),
        };
        DepsStatusInfo {
            all_present: self.all_present,
            compiling: self.compiling,
            current_dep,
            current_step: self.current_step,
            completed_count: self.completed_count,
            total_count: self.total_count,
        }
    }

    /// Every dependency is there; nothing is being built.
    pub fn set_all_present(&mut self)
        ensures
            final(self)@ == (DepsStatusInfo {
                all_present: true,
                compiling: false,
                current_dep: None,
                current_step: None,
                ..old(self)@
            }),
    {
        self.all_present = true;
        self.compiling = false;
        self.current_dep = None;
        self.current_step = None;
    }

    /// A build of `total_deps` dependencies begins.
    pub fn start_compilation(&mut self, total_deps: usize)
        ensures
            final(self)@ == (DepsStatusInfo {
                all_present: false,
                compiling: true,
                current_dep: None,
                current_step: None,
                completed_count: 0,
                total_count: total_deps,
            }),
    {
        self.all_present = false;
        self.compiling = true;
        self.completed_count = 0;
        self.total_count = total_deps;
        self.current_dep = None;
        self.current_step = None;
    }

    /// Record which dependency is at which stage.
    pub fn set_current(&mut self, dep_name: String, step: DepsCompilationStep)
        ensures
            final(self)@ == (DepsStatusInfo {
                current_dep: Some(dep_name),
                current_step: Some(step),
                ..old(self)@
            }),
    {
        self.current_dep = Some(dep_name);
        self.current_step = Some(step);
    }

    /// One more dependency is built (the count stops at its maximum).
    pub fn complete_dep(&mut self)
        ensures
            final(self)@ == (DepsStatusInfo {
                completed_count: if old(self)@.completed_count < usize::MAX {
                    (old(self)@.completed_count + 1) as usize
                } else {
                    old(self)@.completed_count
                },
                ..old(self)@
            }),
    {
        if self.completed_count < usize::MAX {
            self.completed_count = self.completed_count + 1;
        }
    }

    /// The build succeeded.
    pub fn finish_compilation(&mut self)
        ensures
            final(self)@ == (DepsStatusInfo {
                all_present: true,
                compiling: false,
                current_dep: None,
                current_step: None,
                ..old(self)@
            }),
    {
        self.all_present = true;
        self.compiling = false;
        self.current_dep = None;
        self.current_step = None;
    }

    /// The build failed.
    pub fn fail_compilation(&mut self)
        ensures
            final(self)@ == (DepsStatusInfo {
                compiling: false,
                current_dep: None,
                current_step: None,
                ..old(self)@
            }),
    {
        self.compiling = false;
        self.current_dep = None;
        self.current_step = None;
    }
}

impl Default for DepsCompilationTracker {
    fn default() -> (r: Self)
        ensures
            r@ == DepsCompilationTracker::new_spec(),
    {
        DepsCompilationTracker::new()
    }
}

impl DepsCompilationTracker {
    pub open spec fn new_spec() -> DepsStatusInfo {
        DepsStatusInfo {
            all_present: false,
            compiling: false,
            current_dep: None,
            current_step: None,
            completed_count: 0,
            total_count: 0,
        }
    }
}

} // verus!
