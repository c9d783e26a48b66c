//! The module: what it holds between calls, and what each call makes of it.

use crate::conn::{ConnConf, ConnConfView};
use crate::device::{described_device, DeviceConf, DeviceConfEntry, DeviceConfView};
use crate::error::DeviceErr;
use crate::store::{conn_bytes, conn_conf_path, device_bytes, device_conf_path, law_conn_roundtrip, law_device_roundtrip, law_stored_conn_is_unique, law_stored_device_is_unique, stored_conn, stored_device, CONN_CONF_FILE_NAME, DEVICE_CONF_FILE_NAME};
use vstd::prelude::*;

verus! {

/// The version of the interface that the module keeps to.
pub const MOD_VERSION: u8 = 1;

/// The version of the interface that the module keeps to.
pub fn mod_version() -> (version: u8)
    ensures
        version == MOD_VERSION,
        version == 1,
{
    MOD_VERSION
}

/// A module that holds its client as a `C`, the client's event loop as an `E`, the thread that
/// waits for messages as an `H` and the way to stop that thread as an `S`.
pub struct Module<C, E, H, S> {
    data_dir: String,
    client: Option<C>,
    eventloop: Option<E>,
    conn_conf: Option<ConnConf>,
    device_conf: Option<DeviceConf>,
    thread_handle: Option<H>,
    stop_tx: Option<S>,
}

/// The contents of a module.
pub ghost struct ModuleView<C, E, H, S> {
    pub data_dir: Seq<char>,
    pub client: Option<C>,
    pub eventloop: Option<E>,
    pub conn_conf: Option<ConnConfView>,
    pub device_conf: Option<DeviceConfView>,
    pub thread_handle: Option<H>,
    pub stop_tx: Option<S>,
}

impl<C, E, H, S> View for Module<C, E, H, S> {
    type V = ModuleView<C, E, H, S>;

    closed spec fn view(&self) -> ModuleView<C, E, H, S> {
        ModuleView {
            data_dir: self.data_dir@,
            client: self.client,
            eventloop: self.eventloop,
            conn_conf: match self.conn_conf {
                Some(conf) => Some(conf@),
                None => None,
            },
            device_conf: match self.device_conf {
                Some(conf) => Some(conf@),
                None => None,
            },
            thread_handle: self.thread_handle,
            stop_tx: self.stop_tx,
        }
    }
}

impl<C, E, H, S> ModuleView<C, E, H, S> {
    /// What every module keeps to. The client, its event loop and the configuration of the
    /// connection come together. There is a device configuration only with a connection, a thread
    /// only with a device configuration, and a way to stop it exactly where there is a thread.
    pub open spec fn wf(self) -> bool {
        &&& self.client is Some <==> self.eventloop is Some
        &&& self.client is Some <==> self.conn_conf is Some
        &&& self.device_conf is Some ==> self.client is Some
        &&& self.thread_handle is Some ==> self.device_conf is Some
        &&& self.thread_handle is Some <==> self.stop_tx is Some
    }

    /// A module that knows nothing but its directory.
    pub open spec fn fresh(data_dir: Seq<char>) -> Self {
        ModuleView {
            data_dir,
            client: None,
            eventloop: None,
            conn_conf: None,
            device_conf: None,
            thread_handle: None,
            stop_tx: None,
        }
    }

    /// The module with this connection in place of any other.
    pub open spec fn connected(self, conf: ConnConfView, client: C, eventloop: E) -> Self {
        ModuleView {
            client: Some(client),
            eventloop: Some(eventloop),
            conn_conf: Some(conf),
            ..self
        }
    }

    /// The module with this device configuration in place of any other.
    pub open spec fn configured(self, conf: DeviceConfView) -> Self {
        ModuleView { device_conf: Some(conf), ..self }
    }

    /// The module with this thread in place of any other.
    pub open spec fn started(self, thread_handle: H, stop_tx: S) -> Self {
        ModuleView { thread_handle: Some(thread_handle), stop_tx: Some(stop_tx), ..self }
    }

    /// The module without a thread.
    pub open spec fn stopped(self) -> Self {
        ModuleView { thread_handle: None, stop_tx: None, ..self }
    }

    /// Whether there is all that a connection takes.
    pub open spec fn ready(self) -> bool {
        self.client is Some && self.eventloop is Some && self.conn_conf is Some
    }
}

/// A file to write: where, and what.
pub struct SavedFile {
    pub path: String,
    pub bytes: Vec<u8>,
}

/// What the thread of a module listens on.
pub enum StartPlan {
    /// There is no connection to listen on.
    NotReady,
    /// It is not known what to listen on.
    NotConfigured,
    /// Listen on this topic.
    Subscribe { topic: String, qos: u8 },
}

impl<C, E, H, S> Module<C, E, H, S> {
    /// A module that knows nothing but its directory.
    pub fn new(data_dir: String) -> (module: Self)
        ensures
            module@ == ModuleView::<C, E, H, S>::fresh(data_dir@),
            module@.wf(),
    {
        Module {
            data_dir,
            client: None,
            eventloop: None,
            conn_conf: None,
            device_conf: None,
            thread_handle: None,
            stop_tx: None,
        }
    }

    /// A module with configurations that were stored, connected anew.
    pub fn restored(
        data_dir: String,
        conn_conf: ConnConf,
        device_conf: DeviceConf,
        client: C,
        eventloop: E,
    ) -> (module: Self)
        ensures
            module@ == ModuleView::<C, E, H, S>::fresh(data_dir@).connected(
                conn_conf@,
                client,
                eventloop,
            ).configured(device_conf@),
            module@.wf(),
    {
        Module {
            data_dir,
            client: Some(client),
            eventloop: Some(eventloop),
            conn_conf: Some(conn_conf),
            device_conf: Some(device_conf),
            thread_handle: None,
            stop_tx: None,
        }
    }

    /// Whether there is all that a connection takes.
    pub fn is_ready_for_start(&self) -> (ready: bool)
        ensures
            ready == self@.ready(),
    {
        !self.client.is_none() && !self.eventloop.is_none() && !self.conn_conf.is_none()
    }

    /// The client, if there is a connection.
    pub fn client(&self) -> (client: Option<&C>)
        ensures
            client is Some <==> self@.client is Some,
            client matches Some(c) ==> self@.client == Some(*c),
    {
        self.client.as_ref()
    }

    /// The client's event loop, if there is a connection.
    pub fn eventloop(&self) -> (eventloop: Option<&E>)
        ensures
            eventloop is Some <==> self@.eventloop is Some,
            eventloop matches Some(e) ==> self@.eventloop == Some(*e),
    {
        self.eventloop.as_ref()
    }

    /// Takes over the connection that was made as `conf` says, and returns the file to write the
    /// configuration to. Without a connection the module stays as it was.
    pub fn connect_device_impl(&mut self, conf: ConnConf, connection: Option<(C, E)>) -> (saved: Result<
        SavedFile,
        DeviceErr,
    >)
        requires
            old(self)@.wf(),
        ensures
            final(self)@.wf(),
            saved is Ok <==> connection is Some,
            match saved {
                Ok(file) => {
                    &&& file.path@ == old(self)@.data_dir + CONN_CONF_FILE_NAME@
                    &&& file.bytes@ == conn_bytes(conf@)
                    &&& final(self)@ == old(self)@.connected(conf@, (connection->0).0, (connection->0).1)
                },
                Err(err) => err == DeviceErr::DeviceErrConn && final(self)@ == old(self)@,
            },
    {
        match connection {
            Some((client, eventloop)) => {
                let file = SavedFile { path: conn_conf_path(&self.data_dir), bytes: conf.to_bytes() };
                self.client = Some(client);
                self.eventloop = Some(eventloop);
                self.conn_conf = Some(conf);
                Ok(file)
            },
            None => Err(DeviceErr::DeviceErrConn),
        }
    }

    /// Takes over the device configuration that the entries describe, and returns the file to write
    /// it to. Where an entry is not acceptable, or there is no connection, the module stays as it
    /// was.
    pub fn configure_device_impl(&mut self, conf: &Vec<DeviceConfEntry>) -> (saved: Result<SavedFile, DeviceErr>)
        requires
            old(self)@.wf(),
            forall|i: int| 0 <= i < conf@.len() ==> (#[trigger] conf@[i]).wf(),
        ensures
            final(self)@.wf(),
            match saved {
                Ok(file) => {
                    &&& forall|i: int| 0 <= i < conf@.len() ==> (#[trigger] conf@[i]).acceptable()
                    &&& old(self)@.client is Some
                    &&& file.path@ == old(self)@.data_dir + DEVICE_CONF_FILE_NAME@
                    &&& file.bytes@ == device_bytes(described_device(conf@))
                    &&& final(self)@ == old(self)@.configured(described_device(conf@))
                },
                Err(DeviceErr::DeviceErrParams) => {
                    &&& exists|i: int| 0 <= i < conf@.len() && !(#[trigger] conf@[i]).acceptable()
                    &&& final(self)@ == old(self)@
                },
                Err(DeviceErr::DeviceErrConn) => {
                    &&& forall|i: int| 0 <= i < conf@.len() ==> (#[trigger] conf@[i]).acceptable()
                    &&& old(self)@.client is None
                    &&& final(self)@ == old(self)@
                },
            },
    {
        let device_conf = match DeviceConf::new(conf) {
            Ok(device_conf) => device_conf,
            Err(err) => {
                return Err(err);
            },
        };
        if self.client.is_none() {
            return Err(DeviceErr::DeviceErrConn);
        }
        let file = SavedFile { path: device_conf_path(&self.data_dir), bytes: device_conf.to_bytes() };
        self.device_conf = Some(device_conf);
        Ok(file)
    }

    /// What the thread is to listen on, where there is a connection and a device configuration.
    pub fn start_plan(&self) -> (plan: StartPlan)
        ensures
            match plan {
                StartPlan::NotReady => !self@.ready(),
                StartPlan::NotConfigured => self@.ready() && self@.device_conf is None,
                StartPlan::Subscribe { topic, qos } => self@.ready() && self@.device_conf == Some(
                    (DeviceConfView { topic: topic@, qos }),
                ),
            },
    {
        if !self.is_ready_for_start() {
            return StartPlan::NotReady;
        }
        match &self.device_conf {
            Some(conf) => StartPlan::Subscribe { topic: conf.topic.clone(), qos: conf.qos },
            None => StartPlan::NotConfigured,
        }
    }

    /// Takes over the thread that was started.
    pub fn set_started(&mut self, thread_handle: H, stop_tx: S)
        requires
            old(self)@.wf(),
            old(self)@.ready(),
            old(self)@.device_conf is Some,
        ensures
            final(self)@.wf(),
            final(self)@ == old(self)@.started(thread_handle, stop_tx),
    {
        self.thread_handle = Some(thread_handle);
        self.stop_tx = Some(stop_tx);
    }

    /// Gives up the thread, and returns what it takes to stop it and to wait for its end.
    pub fn stop(&mut self) -> (running: Option<(H, S)>)
        requires
            old(self)@.wf(),
        ensures
            final(self)@.wf(),
            final(self)@ == old(self)@.stopped(),
            running is Some <==> old(self)@.thread_handle is Some,
            running matches Some(r) ==> old(self)@.thread_handle == Some(r.0) && old(self)@.stop_tx == Some(r.1),
    {
        match self.thread_handle.take() {
            Some(handle) => {
                let stop_tx = self.stop_tx.take().unwrap();
                Some((handle, stop_tx))
            },
            None => None,
        }
    }
}

/// Stopping a module that was just started leaves it as it was before, and hands back the thread.
pub proof fn law_stop_undoes_start<C, E, H, S>(module: ModuleView<C, E, H, S>, thread_handle: H, stop_tx: S)
    requires
        module.wf(),
        module.thread_handle is None,
    ensures
        module.started(thread_handle, stop_tx).stopped() == module,
        module.started(thread_handle, stop_tx).thread_handle == Some(thread_handle),
        module.started(thread_handle, stop_tx).stop_tx == Some(stop_tx),
{
}

/// Stopping a second time changes nothing.
pub proof fn law_stop_is_idempotent<C, E, H, S>(module: ModuleView<C, E, H, S>)
    ensures
        module.stopped().stopped() == module.stopped(),
        module.stopped().thread_handle is None,
{
}

/// A module is ready exactly where it has a connection, and stays ready whatever is done with it.
pub proof fn law_ready_stays<C, E, H, S>(
    module: ModuleView<C, E, H, S>,
    conn: ConnConfView,
    client: C,
    eventloop: E,
    device: DeviceConfView,
    thread_handle: H,
    stop_tx: S,
)
    requires
        module.wf(),
    ensures
        module.ready() <==> module.client is Some,
        module.connected(conn, client, eventloop).ready(),
        module.configured(device).ready() == module.ready(),
        module.started(thread_handle, stop_tx).ready() == module.ready(),
        module.stopped().ready() == module.ready(),
{
}

/// Why a module cannot be brought up.
#[derive(Debug, Clone, Copy, PartialEq, Eq, Structural)]
pub enum InitErr {
    /// There is a stored connection configuration but no stored device configuration.
    NoDeviceConf,
    /// The stored connection configuration cannot be read.
    BadConnConf,
    /// The stored device configuration cannot be read.
    BadDeviceConf,
}

/// How to bring a module up.
pub enum InitPlan {
    /// Nothing is stored: begin anew.
    Fresh,
    /// Connect as the stored configurations say.
    Reconnect { conn_conf: ConnConf, device_conf: DeviceConf },
}

/// The contents of a plan to bring a module up.
pub ghost enum InitPlanView {
    Fresh,
    Reconnect { conn_conf: ConnConfView, device_conf: DeviceConfView },
}

impl View for InitPlan {
    type V = InitPlanView;

    open spec fn view(&self) -> InitPlanView {
        match *self {
            InitPlan::Fresh => InitPlanView::Fresh,
            InitPlan::Reconnect { conn_conf, device_conf } => InitPlanView::Reconnect {
                conn_conf: conn_conf@,
                device_conf: device_conf@,
            },
        }
    }
}

/// How to bring a module up from the files of its directory, of which each may be missing.
pub open spec fn init_plan(conn_file: Option<Seq<u8>>, device_file: Option<Seq<u8>>) -> Result<
    InitPlanView,
    InitErr,
> {
    match (conn_file, device_file) {
        (None, _) => Ok(InitPlanView::Fresh),
        (Some(_), None) => Err(InitErr::NoDeviceConf),
        (Some(conn), Some(device)) => match (stored_conn(conn), stored_device(device)) {
            (None, _) => Err(InitErr::BadConnConf),
            (Some(_), None) => Err(InitErr::BadDeviceConf),
            (Some(conn_conf), Some(device_conf)) => Ok(
                InitPlanView::Reconnect { conn_conf, device_conf },
            ),
        },
    }
}

/// The bytes of a file, if it is there.
pub open spec fn file_bytes(file: Option<Vec<u8>>) -> Option<Seq<u8>> {
    match file {
        Some(bytes) => Some(bytes@),
        None => None,
    }
}

/// Decides how to bring a module up from the files of its directory, of which each may be missing.
pub fn init(conn_file: &Option<Vec<u8>>, device_file: &Option<Vec<u8>>) -> (plan: Result<InitPlan, InitErr>)
    ensures
        match plan {
            Ok(plan) => init_plan(file_bytes(*conn_file), file_bytes(*device_file)) == Ok::<InitPlanView, InitErr>(plan@),
            Err(err) => init_plan(file_bytes(*conn_file), file_bytes(*device_file)) == Err::<InitPlanView, InitErr>(err),
        },
{
    let conn_bytes = match conn_file {
        Some(bytes) => bytes,
        None => {
            return Ok(InitPlan::Fresh);
        },
    };
    let device_bytes = match device_file {
        Some(bytes) => bytes,
        None => {
            return Err(InitErr::NoDeviceConf);
        },
    };
    let conn_conf = match ConnConf::from_bytes(conn_bytes) {
        Some(conf) => conf,
        None => {
            return Err(InitErr::BadConnConf);
        },
    };
    let device_conf = match DeviceConf::from_bytes(device_bytes) {
        Some(conf) => conf,
        None => {
            return Err(InitErr::BadDeviceConf);
        },
    };
    Ok(InitPlan::Reconnect { conn_conf, device_conf })
}

/// A module that comes up again does so as it was: from the files that were returned when it took
/// over its configurations, the plan is to connect as they say, and the module that is then
/// restored is the old one with the new connection and without a thread.
pub proof fn law_restart_restores<C, E, H, S>(module: ModuleView<C, E, H, S>, client: C, eventloop: E)
    requires
        module.wf(),
        module.device_conf is Some,
        conn_bytes(module.conn_conf->0).len() <= u64::MAX,
        device_bytes(module.device_conf->0).len() <= u64::MAX,
    ensures
        init_plan(
            Some(conn_bytes(module.conn_conf->0)),
            Some(device_bytes(module.device_conf->0)),
        ) == Ok::<InitPlanView, InitErr>(
            InitPlanView::Reconnect {
                conn_conf: module.conn_conf->0,
                device_conf: module.device_conf->0,
            },
        ),
        ModuleView::<C, E, H, S>::fresh(module.data_dir).connected(
            module.conn_conf->0,
            client,
            eventloop,
        ).configured(module.device_conf->0) == module.stopped().connected(
            module.conn_conf->0,
            client,
            eventloop,
        ),
{
    let conn = conn_bytes(module.conn_conf->0);
    let device = device_bytes(module.device_conf->0);
    law_conn_roundtrip(module.conn_conf->0, Seq::empty());
    law_device_roundtrip(module.device_conf->0, Seq::empty());
    assert(conn + Seq::empty() =~= conn);
    assert(device + Seq::empty() =~= device);
}

/// A module that begins anew has its directory and nothing else.
pub proof fn law_fresh_module_is_empty<C, E, H, S>(data_dir: Seq<char>)
    ensures
        ModuleView::<C, E, H, S>::fresh(data_dir).data_dir == data_dir,
        ModuleView::<C, E, H, S>::fresh(data_dir).client is None,
        ModuleView::<C, E, H, S>::fresh(data_dir).eventloop is None,
        ModuleView::<C, E, H, S>::fresh(data_dir).conn_conf is None,
        ModuleView::<C, E, H, S>::fresh(data_dir).device_conf is None,
        ModuleView::<C, E, H, S>::fresh(data_dir).thread_handle is None,
        ModuleView::<C, E, H, S>::fresh(data_dir).stop_tx is None,
{
}

/// Taking over a connection keeps exactly that connection and its configuration, and touches
/// nothing else: neither the directory, nor the device configuration, nor the thread.
pub proof fn law_connecting_touches_connection_only<C, E, H, S>(
    module: ModuleView<C, E, H, S>,
    conf: ConnConfView,
    client: C,
    eventloop: E,
)
    ensures
        module.connected(conf, client, eventloop).client == Some(client),
        module.connected(conf, client, eventloop).eventloop == Some(eventloop),
        module.connected(conf, client, eventloop).conn_conf == Some(conf),
        module.connected(conf, client, eventloop).data_dir == module.data_dir,
        module.connected(conf, client, eventloop).device_conf == module.device_conf,
        module.connected(conf, client, eventloop).thread_handle == module.thread_handle,
        module.connected(conf, client, eventloop).stop_tx == module.stop_tx,
{
}

/// Taking over a device configuration keeps exactly that configuration, and touches nothing else:
/// neither the directory, nor the connection, nor the thread.
pub proof fn law_configuring_touches_device_only<C, E, H, S>(module: ModuleView<C, E, H, S>, conf: DeviceConfView)
    ensures
        module.configured(conf).device_conf == Some(conf),
        module.configured(conf).data_dir == module.data_dir,
        module.configured(conf).client == module.client,
        module.configured(conf).eventloop == module.eventloop,
        module.configured(conf).conn_conf == module.conn_conf,
        module.configured(conf).thread_handle == module.thread_handle,
        module.configured(conf).stop_tx == module.stop_tx,
{
}

/// Starting keeps exactly the thread and the way to stop it, stopping gives up both, and neither
/// touches anything else: neither the directory, nor the connection, nor the configurations.
pub proof fn law_start_and_stop_touch_thread_only<C, E, H, S>(
    module: ModuleView<C, E, H, S>,
    thread_handle: H,
    stop_tx: S,
)
    ensures
        module.started(thread_handle, stop_tx).thread_handle == Some(thread_handle),
        module.started(thread_handle, stop_tx).stop_tx == Some(stop_tx),
        module.started(thread_handle, stop_tx).data_dir == module.data_dir,
        module.started(thread_handle, stop_tx).client == module.client,
        module.started(thread_handle, stop_tx).eventloop == module.eventloop,
        module.started(thread_handle, stop_tx).conn_conf == module.conn_conf,
        module.started(thread_handle, stop_tx).device_conf == module.device_conf,
        module.stopped().thread_handle is None,
        module.stopped().stop_tx is None,
        module.stopped().data_dir == module.data_dir,
        module.stopped().client == module.client,
        module.stopped().eventloop == module.eventloop,
        module.stopped().conn_conf == module.conn_conf,
        module.stopped().device_conf == module.device_conf,
{
}

/// A module is ready exactly where none of the three things that a connection takes is missing.
pub proof fn law_ready_means_nothing_missing<C, E, H, S>(module: ModuleView<C, E, H, S>)
    ensures
        !module.ready() <==> module.client is None || module.eventloop is None || module.conn_conf is None,
{
}

/// Whatever a module keeps to, each of its operations keeps to as well.
pub proof fn law_operations_keep_wf<C, E, H, S>(
    module: ModuleView<C, E, H, S>,
    conn: ConnConfView,
    client: C,
    eventloop: E,
    device: DeviceConfView,
    thread_handle: H,
    stop_tx: S,
)
    requires
        module.wf(),
    ensures
        ModuleView::<C, E, H, S>::fresh(module.data_dir).wf(),
        module.connected(conn, client, eventloop).wf(),
        module.client is Some ==> module.configured(device).wf(),
        module.device_conf is Some ==> module.started(thread_handle, stop_tx).wf(),
        module.stopped().wf(),
        module.thread_handle is Some ==> module.stop_tx is Some && module.client is Some && module.eventloop is Some
            && module.conn_conf is Some && module.device_conf is Some,
{
}

/// A module comes up from its files as they are: without a connection file anew, whatever else
/// there is; from the stored forms of two configurations, whatever stands behind them, with these
/// configurations; and not at all where the device file is missing, where the connection file
/// begins with no stored form, or where it does and the device file begins with none.
pub proof fn law_init_follows_files(
    conn_file: Vec<u8>,
    device_file: Vec<u8>,
    other_file: Option<Vec<u8>>,
    conn_conf: ConnConfView,
    device_conf: DeviceConfView,
)
    ensures
        init_plan(file_bytes(None), file_bytes(other_file)) == Ok::<InitPlanView, InitErr>(InitPlanView::Fresh),
        init_plan(file_bytes(Some(conn_file)), file_bytes(None)) == Err::<InitPlanView, InitErr>(
            InitErr::NoDeviceConf,
        ),
        conn_bytes(conn_conf).is_prefix_of(conn_file@) && device_bytes(device_conf).is_prefix_of(device_file@)
            ==> init_plan(file_bytes(Some(conn_file)), file_bytes(Some(device_file))) == Ok::<InitPlanView, InitErr>(
            InitPlanView::Reconnect { conn_conf, device_conf },
        ),
        (forall|c: ConnConfView| !(#[trigger] conn_bytes(c)).is_prefix_of(conn_file@)) ==> init_plan(
            file_bytes(Some(conn_file)),
            file_bytes(Some(device_file)),
        ) == Err::<InitPlanView, InitErr>(InitErr::BadConnConf),
        conn_bytes(conn_conf).is_prefix_of(conn_file@) && (forall|d: DeviceConfView|
            !(#[trigger] device_bytes(d)).is_prefix_of(device_file@)) ==> init_plan(
            file_bytes(Some(conn_file)),
            file_bytes(Some(device_file)),
        ) == Err::<InitPlanView, InitErr>(InitErr::BadDeviceConf),
{
    assert(conn_file@.len() == conn_file.len());
    assert(device_file@.len() == device_file.len());
    if conn_bytes(conn_conf).is_prefix_of(conn_file@) {
        law_stored_conn_is_unique(stored_conn(conn_file@)->0, conn_conf, conn_file@);
    }
    if device_bytes(device_conf).is_prefix_of(device_file@) {
        law_stored_device_is_unique(stored_device(device_file@)->0, device_conf, device_file@);
    }
}

/// The contents of a plan to connect anew are the configurations that it holds.
pub proof fn law_plan_contents(conn_conf: ConnConf, device_conf: DeviceConf)
    ensures
        InitPlan::Fresh@ is Fresh,
        (InitPlan::Reconnect { conn_conf, device_conf })@ == (InitPlanView::Reconnect {
            conn_conf: conn_conf@,
            device_conf: device_conf@,
        }),
{
}

} // verus!
