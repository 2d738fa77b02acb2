//! The debug plugin: where its transport listens, and what it registers.

use vstd::prelude::*;

use crate::base::DataRoot;
use crate::error::PluginError;
use crate::gate::GateReader;
use crate::host::AppCtx;
use crate::manager::{HostTypes, PluginRecord};

verus! {

/// The debug plugin: registers the transport and the dispatch Update system,
/// which also serves the built-in `runtime.*` introspection topics.
#[derive(Debug, Clone, Copy)]
pub struct DebugPlugin;

/// The path of the transport's socket under a data root.
pub open spec fn socket_file(root: Seq<char>) -> Seq<char> {
    crate::base::joined(crate::base::joined(root, "shiny-song-tools"@), "d.sock"@)
}

/// The path of the transport's socket.
pub fn socket_path(data_root: &DataRoot) -> (r: String)
    ensures
        r@ == socket_file(data_root.root()),
{
    DataRoot::new(data_root.join("shiny-song-tools")).join("d.sock")
}

impl DebugPlugin {
    /// Display name used by the inventory and observability events.
    pub fn name(&self) -> (r: &'static str)
        ensures
            r@ == "debug"@,
    {
        "debug"
    }

    /// Binds the transport through `bind`, behind the runtime gate, and
    /// registers the dispatch system that `dispatch` makes of it. A transport
    /// that cannot be bound fails the plugin, which has then registered nothing.
    pub fn build<
        H: HostTypes,
        T,
        B: FnOnce(String, GateReader) -> Result<T, String>,
        F: FnOnce(T) -> H::Update,
    >(&self, ctx: &mut AppCtx<H>, bind: B, dispatch: F) -> (r: Result<(), PluginError>)
        requires
            old(ctx).wf(),
            forall|path: String|
                path@ == socket_file(old(ctx).host().data_root.root()) ==> #[trigger] bind.requires(
                    (path, old(ctx).host().runtime_gate),
                ),
            forall|path: String, transport: T| #[trigger]
                bind.ensures((path, old(ctx).host().runtime_gate), Ok(transport))
                    ==> dispatch.requires((transport,)),
        ensures
            final(ctx).wf(),
            final(ctx).owner() == old(ctx).owner(),
            exists|path: String, bound: Result<T, String>|
                {
                    &&& path@ == socket_file(old(ctx).host().data_root.root())
                    &&& #[trigger] bind.ensures((path, old(ctx).host().runtime_gate), bound)
                    &&& match bound {
                        Err(error) => {
                            &&& r is Err && r->Err_0 == PluginError::Io(error)
                            &&& final(ctx).host() == old(ctx).host()
                        },
                        Ok(transport) => exists|system: H::Update|
                            {
                                &&& #[trigger] dispatch.ensures((transport,), system)
                                &&& r is Ok
                                &&& dispatch_registered(*old(ctx), *final(ctx), system)
                            },
                    }
                },
    {
        let path: String = socket_path(&ctx.data_root());
        let ghost file = path;
        let gate = ctx.runtime_gate_reader();
        let bound = bind(path, gate);
        let ghost reply = bound;
        assert(bind.ensures((file, old(ctx).host().runtime_gate), reply));
        match bound {
            Err(error) => Err(PluginError::Io(error)),
            Ok(transport) => {
                let ghost listening = transport;
                let system = dispatch(transport);
                let ghost made = system;
                assert(dispatch.ensures((listening,), made));
                ctx.add_update_system(system);
                assert(dispatch_registered(*old(ctx), *ctx, made));
                Ok(())
            },
        }
    }
}

/// The dispatch system, and nothing else, is new in the owner's record.
pub open spec fn dispatch_registered<H: HostTypes>(
    before: AppCtx<H>,
    after: AppCtx<H>,
    system: H::Update,
) -> bool {
    let owner = before.owner();
    let old_record = before.host().of(owner);
    let new_record = after.host().of(owner);
    &&& crate::host::record_changed(before.host(), after.host(), owner, new_record)
    &&& new_record == (PluginRecord { update: new_record.update, ..old_record })
    &&& new_record.update@ == old_record.update@.push(system)
}

} // verus!
