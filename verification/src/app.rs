use vstd::prelude::*;

use crate::errors::AccessError;
use crate::game::{
    encode_failure_state, spec_chain_resolved, spec_encoded, spec_snapshot, GameInfo, WinApi,
};
use crate::port::OsPort;
use crate::process::{find_by_name, target_process_name, ProcessManager};

verus! {

broadcast use vstd::multiset::group_multiset_axioms;

/// The per-tick driver the render loop calls into: it owns the cached target
/// process and the process directory, and exposes one poll operation.
pub struct App {
    pub should_quit: bool,
    pub winapi: WinApi,
    pub manager: ProcessManager,
}

impl App {
    /// The cached process record, when present, is well-formed and elevated.
    pub open spec fn wf(&self) -> bool {
        self.winapi.wf()
    }

    /// A fresh driver with no cached target process.
    pub fn new() -> (r: App)
        ensures
            !r.should_quit,
            r.winapi.game_process is None,
            r.wf(),
    {
        App { should_quit: false, winapi: WinApi::new(), manager: ProcessManager::default() }
    }

    /// Whether a target process is currently cached.
    pub fn has_target(&self) -> (r: bool)
        ensures
            r == (self.winapi.game_process is Some),
    {
        self.winapi.game_process.is_some()
    }

    /// One poll tick: ensure a target handle exists (re-running discovery and
    /// elevation when none is cached), decode a snapshot, and — only when a
    /// match is running — write the override pattern.
    ///
    /// A successful poll returns exactly [`spec_snapshot`] of the memory
    /// image the tick started from; when that snapshot is running, the image
    /// afterwards is [`spec_encoded`] of it, written with six boundary
    /// writes, and otherwise the image is untouched. Discovery runs exactly
    /// when no target was cached. Every failure — target absent, elevation
    /// refused, or an access-boundary failure — leaves the cache empty, so
    /// the next poll re-runs discovery from scratch.
    pub fn poll<P: OsPort>(&mut self, port: &mut P) -> (r: Result<GameInfo, AccessError>)
        requires
            old(self).wf(),
        ensures
            final(self).wf(),
            final(self).should_quit == old(self).should_quit,
            old(self).winapi.game_process is None ==> final(port).enum_calls() == old(port).enum_calls() + 1,
            old(self).winapi.game_process is Some ==> final(port).enum_calls() == old(port).enum_calls(),
            r matches Err(e) ==> final(self).winapi.game_process is None && !(e
                matches AccessError::InvalidArgument),
            r matches Err(e) ==> ((e matches AccessError::NotFound || e
                matches AccessError::OpenProcessFailed { .. }) ==> final(port).mem() == old(port).mem() && final(port).write_calls() == old(port).write_calls()
                && final(port).read_calls() == old(port).read_calls()),
            r matches Err(_) ==> exists|k: int|
                encode_failure_state(
                    old(port).mem(),
                    old(port).write_calls(),
                    final(port).mem(),
                    final(port).write_calls(),
                    k,
                ),
            old(self).winapi.game_process matches Some(p) ==> (r matches Err(_) ==> final(port).open_handles() == old(port).open_handles().remove(p.handle)),
            (r matches Err(_) && old(self).winapi.game_process is None) ==> final(port).open_handles() == old(port).open_handles(),
            (r matches Ok(_) && old(self).winapi.game_process is Some) ==> final(port).open_handles() == old(port).open_handles(),
            (r matches Ok(_) && old(self).winapi.game_process is None) ==> (final(self).winapi.game_process matches Some(q) && final(port).open_handles() == old(port).open_handles().insert(q.handle)),
            r matches Ok(info) ==> (final(self).winapi.game_process matches Some(p) && info.pid
                == p.pid && info == spec_snapshot(old(port).mem(), p.pid) && (info.is_running
                <==> spec_chain_resolved(old(port).mem()))),
            (r matches Ok(info) && !info.is_running) ==> final(port).mem() == old(port).mem()
                && final(port).write_calls() == old(port).write_calls(),
            (r matches Ok(info) && info.is_running) ==> final(port).mem() == spec_encoded(
                old(port).mem(),
            ) && final(port).write_calls() == old(port).write_calls() + 6,
    {
        if self.winapi.game_process.is_none() {
            let list = self.manager.get_process_list(port);
            match find_by_name(&list, target_process_name()) {
                None => {
                    proof {
                        assert(encode_failure_state(
                            old(port).mem(),
                            old(port).write_calls(),
                            port.mem(),
                            port.write_calls(),
                            0,
                        ));
                    }
                    return Err(AccessError::NotFound);
                },
                Some(p) => {
                    match self.winapi.set_game_process(port, p) {
                        Ok(_) => {},
                        Err(e) => {
                            proof {
                                assert(encode_failure_state(
                                    old(port).mem(),
                                    old(port).write_calls(),
                                    port.mem(),
                                    port.write_calls(),
                                    0,
                                ));
                            }
                            return Err(e);
                        },
                    }
                },
            }
        }
        let info = match self.winapi.read_game_info(port) {
            Ok(info) => info,
            Err(e) => {
                proof {
                    assert(encode_failure_state(
                        old(port).mem(),
                        old(port).write_calls(),
                        port.mem(),
                        port.write_calls(),
                        0,
                    ));
                    if old(self).winapi.game_process is None {
                        assert(port.open_handles() =~= old(port).open_handles());
                    }
                }
                return Err(e);
            },
        };
        if info.is_running {
            match self.winapi.write_game_info(port) {
                Ok(_) => {},
                Err(e) => {
                    proof {
                        if old(self).winapi.game_process is None {
                            assert(port.open_handles() =~= old(port).open_handles());
                        }
                    }
                    return Err(e);
                },
            }
        }
        Ok(info)
    }
}

} // verus!
