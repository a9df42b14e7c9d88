use vstd::prelude::*;
use crate::bfrt::info::{BFRTInfo, SchemaCatalog};
use crate::bfrt::table_object::TableSchema;
use crate::error::{result_view, ErrorSpec, RBFRTError};
use crate::protos::bfrt_proto::{
    ConfigAction, DevInitMode, Entity, EntityView, ForwardingPipelineConfig, ForwardingPipelineConfigView,
    Notifications, ReadRequest, ReadRequestView, SetForwardingPipelineConfigRequest,
    SetForwardingPipelineConfigRequestView, StreamMessageRequest, StreamMessageResponse, StreamMessageResponseView,
    Subscribe, TargetDevice, Update, UpdateView, WriteRequest, WriteRequestView,
};
use crate::table::table_entry::{tag_requests, Request, RequestType, RequestView, TableEntry, TableEntryView};
use crate::seq_ext::{lemma_try_map_prefix_err, lemma_try_map_step, try_map};
use crate::text::str_eq;

verus! {

/// Capacity of the queue of digests and of the relay in front of it.
pub const DIGEST_QUEUE_SIZE: usize = 10000;

/// Collects what a connection to a switch needs before it is opened.
#[derive(Debug)]
pub struct SwitchConnectionBuilder {
    ip: String,
    port: u16,
    device_id: u32,
    client_id: u32,
    p4_name: Option<String>,
    config: Option<String>,
}

pub struct BuilderView {
    pub ip: Seq<char>,
    pub port: u16,
    pub device_id: u32,
    pub client_id: u32,
    pub p4_name: Option<Seq<char>>,
    pub config: Option<Seq<char>>,
}

pub open spec fn text_view(s: Option<String>) -> Option<Seq<char>> {
    match s {
        Some(t) => Some(t@),
        None => None,
    }
}

impl View for SwitchConnectionBuilder {
    type V = BuilderView;

    closed spec fn view(&self) -> BuilderView {
        BuilderView {
            ip: self.ip@,
            port: self.port,
            device_id: self.device_id,
            client_id: self.client_id,
            p4_name: text_view(self.p4_name),
            config: text_view(self.config),
        }
    }
}

impl SwitchConnectionBuilder {
    /// Sets the id under which the controller speaks to the switch.
    pub fn client_id(self, client_id: u32) -> (r: SwitchConnectionBuilder)
        ensures
            r@ == (BuilderView { client_id, ..self@ }),
    {
        SwitchConnectionBuilder { client_id, ..self }
    }

    /// Sets the id of the device.
    pub fn device_id(self, device_id: u32) -> (r: SwitchConnectionBuilder)
        ensures
            r@ == (BuilderView { device_id, ..self@ }),
    {
        SwitchConnectionBuilder { device_id, ..self }
    }

    /// Sets the name of the program that runs on the switch.
    pub fn p4_name(self, p4_name: &str) -> (r: SwitchConnectionBuilder)
        ensures
            r@ == (BuilderView { p4_name: Some(p4_name@), ..self@ }),
    {
        SwitchConnectionBuilder { p4_name: Some(p4_name.to_owned()), ..self }
    }

    /// Sets the path of the configuration of a program to load onto the switch.
    pub fn config(self, path: &str) -> (r: SwitchConnectionBuilder)
        ensures
            r@ == (BuilderView { config: Some(path@), ..self@ }),
    {
        SwitchConnectionBuilder { config: Some(path.to_owned()), ..self }
    }

    /// The connection that this builder describes, not yet opened.
    pub fn build(self) -> (r: SwitchConnection)
        ensures
            r@ == (SessionView {
                ip: self@.ip,
                port: self@.port,
                device_id: self@.device_id,
                client_id: self@.client_id,
                schema: None,
                target: default_target(self@.device_id),
                p4_name: self@.p4_name,
                config: self@.config,
                state: SessionState::Disconnected,
                uploaded: false,
            }),
    {
        SwitchConnection {
            ip: self.ip,
            port: self.port,
            device_id: self.device_id,
            client_id: self.client_id,
            bfrt_info: None,
            target: TargetDevice { device_id: self.device_id, pipe_id: 0xffff, direction: 0xff, prsr_id: 0xff },
            p4_name: self.p4_name,
            config: self.config,
            state: SessionState::Disconnected,
            uploaded: false,
        }
    }
}

/// The target of a call that names no pipe: every pipe, direction and parser
/// of the device.
pub open spec fn default_target(device_id: u32) -> TargetDevice {
    TargetDevice { device_id, pipe_id: 0xffff, direction: 0xff, prsr_id: 0xff }
}

/// How far the session has come.
#[derive(Debug, Clone, Copy, PartialEq, Eq, Structural)]
pub enum SessionState {
    Disconnected,
    Connected,
    Subscribed,
    Bound,
    Ready,
    Failed,
}

/// What the transport reports while the session is set up.
#[derive(Debug)]
pub enum SessionEvent {
    /// The transport to the switch stands.
    TransportUp,
    /// The transport could not be established.
    TransportDown { reason: String },
    /// The switch took the uploaded program, which has the given name.
    ConfigAccepted { p4_name: String },
    /// The switch refused the uploaded program.
    ConfigRejected { message: String, details: String },
    /// The first message on the notification stream.
    SubscribeReply(StreamMessageResponse),
    /// The switch bound the client to the program.
    BindAccepted,
    /// The switch refused to bind the client to the program.
    BindRejected { message: String, details: String },
    /// The switch sent its schemas: that of the bound program, if it has
    /// one under the program's name, and that of the platform.
    SchemaFetched { program: Option<BFRTInfo>, platform: BFRTInfo },
    /// The schemas could not be fetched.
    SchemaRefused { reason: String },
}

pub enum EventView {
    TransportUp,
    TransportDown { reason: Seq<char> },
    ConfigAccepted { p4_name: Seq<char> },
    ConfigRejected { message: Seq<char>, details: Seq<char> },
    SubscribeReply(StreamMessageResponseView),
    BindAccepted,
    BindRejected { message: Seq<char>, details: Seq<char> },
    SchemaFetched { program: Option<SchemaCatalog>, platform: SchemaCatalog },
    SchemaRefused { reason: Seq<char> },
}

impl View for SessionEvent {
    type V = EventView;

    open spec fn view(&self) -> EventView {
        match self {
            SessionEvent::TransportUp => EventView::TransportUp,
            SessionEvent::TransportDown { reason } => EventView::TransportDown { reason: reason@ },
            SessionEvent::ConfigAccepted { p4_name } => EventView::ConfigAccepted { p4_name: p4_name@ },
            SessionEvent::ConfigRejected { message, details } => EventView::ConfigRejected {
                message: message@,
                details: details@,
            },
            SessionEvent::SubscribeReply(msg) => EventView::SubscribeReply(msg@),
            SessionEvent::BindAccepted => EventView::BindAccepted,
            SessionEvent::BindRejected { message, details } => EventView::BindRejected {
                message: message@,
                details: details@,
            },
            SessionEvent::SchemaFetched { program, platform } => EventView::SchemaFetched {
                program: match program {
                    Some(p) => Some(p@),
                    None => None,
                },
                platform: platform@,
            },
            SessionEvent::SchemaRefused { reason } => EventView::SchemaRefused { reason: reason@ },
        }
    }
}

/// What the caller of the session has to do next.
#[derive(Debug)]
pub enum SessionAction {
    /// Upload the program that the configuration at `path` describes.
    UploadConfig { path: String },
    /// Open the notification stream and send the subscription.
    Subscribe(StreamMessageRequest),
    /// Bind to the program.
    Bind { p4_name: String },
    /// Fetch the schemas of the device.
    FetchSchema { device_id: u32, client_id: u32 },
    /// Start the notification pipeline: the session is ready.
    StartNotifications,
    /// Give up with the error.
    Abort(RBFRTError),
}

pub enum ActionView {
    UploadConfig { path: Seq<char> },
    Subscribe(StreamMessageRequest),
    Bind { p4_name: Seq<char> },
    FetchSchema { device_id: u32, client_id: u32 },
    StartNotifications,
    Abort(ErrorSpec),
}

impl View for SessionAction {
    type V = ActionView;

    open spec fn view(&self) -> ActionView {
        match self {
            SessionAction::UploadConfig { path } => ActionView::UploadConfig { path: path@ },
            SessionAction::Subscribe(req) => ActionView::Subscribe(*req),
            SessionAction::Bind { p4_name } => ActionView::Bind { p4_name: p4_name@ },
            SessionAction::FetchSchema { device_id, client_id } => ActionView::FetchSchema {
                device_id: *device_id,
                client_id: *client_id,
            },
            SessionAction::StartNotifications => ActionView::StartNotifications,
            SessionAction::Abort(e) => ActionView::Abort(e@),
        }
    }
}

/// The session with a switch: who speaks to whom, how far the handshake
/// has come and, once it is through, the schema that all calls go by.
#[derive(Debug)]
pub struct SwitchConnection {
    ip: String,
    port: u16,
    device_id: u32,
    client_id: u32,
    bfrt_info: Option<BFRTInfo>,
    target: TargetDevice,
    p4_name: Option<String>,
    config: Option<String>,
    state: SessionState,
    uploaded: bool,
}

pub struct SessionView {
    pub ip: Seq<char>,
    pub port: u16,
    pub device_id: u32,
    pub client_id: u32,
    pub schema: Option<SchemaCatalog>,
    pub target: TargetDevice,
    pub p4_name: Option<Seq<char>>,
    pub config: Option<Seq<char>>,
    pub state: SessionState,
    /// Whether the program of the configuration has been uploaded.
    pub uploaded: bool,
}

pub open spec fn schema_view(info: Option<BFRTInfo>) -> Option<SchemaCatalog> {
    match info {
        Some(i) => Some(i@),
        None => None,
    }
}

impl View for SwitchConnection {
    type V = SessionView;

    closed spec fn view(&self) -> SessionView {
        SessionView {
            ip: self.ip@,
            port: self.port,
            device_id: self.device_id,
            client_id: self.client_id,
            schema: schema_view(self.bfrt_info),
            target: self.target,
            p4_name: text_view(self.p4_name),
            config: text_view(self.config),
            state: self.state,
            uploaded: self.uploaded,
        }
    }
}

pub open spec fn no_p4_name_text() -> Seq<char> {
    "P4 name not set."@
}

pub open spec fn subscription_failed_text() -> Seq<char> {
    "Notification subscription failed."@
}

pub open spec fn unexpected_event_text() -> Seq<char> {
    "Unexpected event."@
}

pub open spec fn established_text() -> Seq<char> {
    "Session is established."@
}

/// Whether a message of the notification stream acknowledges the
/// subscription: it answers the subscription with the status code 0.
pub open spec fn acknowledges(msg: StreamMessageResponseView) -> bool {
    msg matches StreamMessageResponseView::Subscribe(s) && s.status == Some(0i32)
}

/// The schema that a session works with: the tables of the program, then
/// those of the platform, and the learn filters of the program.
pub open spec fn merged(program: SchemaCatalog, platform: SchemaCatalog) -> SchemaCatalog {
    SchemaCatalog { tables: program.tables + platform.tables, learn_filters: program.learn_filters }
}

impl SessionView {
    /// A session holds a schema when it is ready, and only then; from the
    /// subscription on it knows its program's name.
    pub open spec fn wf(self) -> bool {
        &&& self.state is Ready <==> self.schema is Some
        &&& self.state is Subscribed || self.state is Bound || self.state is Ready ==> self.p4_name is Some
    }

    /// The subscription that the session sends: the client as master of the
    /// device, with learn, idle-timeout and port-status notifications.
    pub open spec fn subscribe_request(self) -> StreamMessageRequest {
        StreamMessageRequest {
            client_id: self.client_id,
            subscribe: Subscribe {
                is_master: true,
                device_id: self.device_id,
                notifications: Some(
                    Notifications {
                        enable_learn_notifications: true,
                        enable_idletimeout_notifications: true,
                        enable_port_status_change_notifications: true,
                    },
                ),
                status: None,
            },
        }
    }

    /// The session given up.
    pub open spec fn failed(self) -> SessionView {
        SessionView { state: SessionState::Failed, schema: None, ..self }
    }

    /// Whether the session waits for the result of the upload.
    pub open spec fn upload_pending(self) -> bool {
        self.config is Some && !self.uploaded
    }

    /// The step towards the subscription, which needs the program's name.
    pub open spec fn begin_subscription(self) -> (SessionView, ActionView) {
        if self.p4_name is Some {
            (self, ActionView::Subscribe(self.subscribe_request()))
        } else {
            (self.failed(), ActionView::Abort(ErrorSpec::HandshakeError { message: no_p4_name_text() }))
        }
    }

    /// The handshake: from the state and what the transport reports to the
    /// next state and what to do. Every failure ends in `Failed`; a ready
    /// session stays as it is.
    pub open spec fn step(self, ev: EventView) -> (SessionView, ActionView) {
        let unexpected = (
            self.failed(),
            ActionView::Abort(ErrorSpec::HandshakeError { message: unexpected_event_text() }),
        );
        match self.state {
            SessionState::Disconnected => match ev {
                EventView::TransportUp => {
                    let s = SessionView { state: SessionState::Connected, ..self };
                    if s.upload_pending() {
                        (s, ActionView::UploadConfig { path: s.config->Some_0 })
                    } else {
                        s.begin_subscription()
                    }
                },
                EventView::TransportDown { reason } => (
                    self.failed(),
                    ActionView::Abort(ErrorSpec::ConnectionError { ip: self.ip, port: self.port, orig_e: reason }),
                ),
                _ => unexpected,
            },
            SessionState::Connected => match ev {
                EventView::ConfigAccepted { p4_name } => if self.upload_pending() {
                    (SessionView { uploaded: true, p4_name: Some(p4_name), ..self }).begin_subscription()
                } else {
                    unexpected
                },
                EventView::ConfigRejected { message, details } => if self.upload_pending() {
                    (self.failed(), ActionView::Abort(ErrorSpec::GRPCError { message, details }))
                } else {
                    unexpected
                },
                EventView::SubscribeReply(msg) => if self.upload_pending() || self.p4_name is None {
                    unexpected
                } else if acknowledges(msg) {
                    (
                        SessionView { state: SessionState::Subscribed, ..self },
                        ActionView::Bind { p4_name: self.p4_name->Some_0 },
                    )
                } else {
                    (
                        self.failed(),
                        ActionView::Abort(ErrorSpec::HandshakeError { message: subscription_failed_text() }),
                    )
                },
                _ => unexpected,
            },
            SessionState::Subscribed => match ev {
                EventView::BindAccepted => (
                    SessionView { state: SessionState::Bound, ..self },
                    ActionView::FetchSchema { device_id: self.device_id, client_id: self.client_id },
                ),
                EventView::BindRejected { message, details } => (
                    self.failed(),
                    ActionView::Abort(ErrorSpec::GRPCError { message, details }),
                ),
                _ => unexpected,
            },
            SessionState::Bound => match ev {
                EventView::SchemaFetched { program, platform } => match (program, self.p4_name) {
                    (Some(p), Some(_)) => (
                        SessionView { state: SessionState::Ready, schema: Some(merged(p, platform)), ..self },
                        ActionView::StartNotifications,
                    ),
                    (None, Some(name)) => (self.failed(), ActionView::Abort(ErrorSpec::P4ProgramError { name })),
                    _ => unexpected,
                },
                EventView::SchemaRefused { reason } => (
                    self.failed(),
                    ActionView::Abort(
                        ErrorSpec::GetForwardingPipelineError {
                            device_id: self.device_id,
                            client_id: self.client_id,
                            orig_e: reason,
                        },
                    ),
                ),
                _ => unexpected,
            },
            SessionState::Ready => (
                self,
                ActionView::Abort(ErrorSpec::HandshakeError { message: established_text() }),
            ),
            SessionState::Failed => unexpected,
        }
    }
}

/// The handshake keeps a session well-formed: no schema is held before the
/// session is ready, and none is lost or changed once it is.
pub proof fn lemma_step_preserves(s: SessionView, ev: EventView)
    requires
        s.wf(),
    ensures
        s.step(ev).0.wf(),
        s.state is Ready ==> s.step(ev).0 == s,
        s.state is Failed ==> s.step(ev).0.state is Failed,
        s.step(ev).1 is Abort && !(s.state is Ready) ==> s.step(ev).0.state is Failed,
        s.step(ev).0.state is Ready && !(s.state is Ready) ==> s.state is Bound,
{
}

/// The call that binds the client to the program with the given name.
pub open spec fn bind_request_view(device_id: u32, client_id: u32, p4_name: Seq<char>) -> SetForwardingPipelineConfigRequestView {
    SetForwardingPipelineConfigRequestView {
        device_id,
        client_id,
        action: ConfigAction::Bind,
        dev_init_mode: DevInitMode::FastReconfig,
        base_path: Seq::empty(),
        config: seq![
            ForwardingPipelineConfigView { p4_name, bfruntime_info: Seq::empty(), profiles: Seq::empty() },
        ],
    }
}

pub fn bind_request(device_id: u32, client_id: u32, p4_name: &str) -> (r: SetForwardingPipelineConfigRequest)
    ensures
        r@ == bind_request_view(device_id, client_id, p4_name@),
{
    let mut config: Vec<ForwardingPipelineConfig> = Vec::new();
    let program = ForwardingPipelineConfig {
        p4_name: p4_name.to_owned(),
        bfruntime_info: Vec::new(),
        profiles: Vec::new(),
    };
    proof {
        assert(program@.profiles =~= Seq::empty());
        assert(program@.bfruntime_info =~= Seq::empty());
    }
    config.push(program);
    let r = SetForwardingPipelineConfigRequest {
        device_id,
        client_id,
        action: ConfigAction::Bind,
        dev_init_mode: DevInitMode::FastReconfig,
        base_path: String::new(),
        config,
    };
    proof {
        assert(r@.config[0] == program@);
        assert(r@.config =~= bind_request_view(device_id, client_id, p4_name@).config);
    }
    r
}

/// The call that loads the given programs onto the device: verified, and
/// put to work with a fast reconfiguration.
pub fn upload_request(device_id: u32, client_id: u32, config: Vec<ForwardingPipelineConfig>) -> (r:
    SetForwardingPipelineConfigRequest)
    ensures
        r@ == (SetForwardingPipelineConfigRequestView {
            device_id,
            client_id,
            action: ConfigAction::VerifyAndWarmInitBeginAndEnd,
            dev_init_mode: DevInitMode::FastReconfig,
            base_path: Seq::empty(),
            config: config@.map_values(|c: ForwardingPipelineConfig| c@),
        }),
{
    SetForwardingPipelineConfigRequest {
        device_id,
        client_id,
        action: ConfigAction::VerifyAndWarmInitBeginAndEnd,
        dev_init_mode: DevInitMode::FastReconfig,
        base_path: String::new(),
        config,
    }
}

/// Position of the program with the given name among those that the switch
/// reported, the first if there are several.
pub fn find_program(names: &Vec<String>, p4_name: &str) -> (r: Option<usize>)
    ensures
        match r {
            Some(i) => i < names@.len() && names@[i as int]@ == p4_name@ && forall|j: int|
                0 <= j < i ==> names@[j]@ != p4_name@,
            None => forall|j: int| 0 <= j < names@.len() ==> names@[j]@ != p4_name@,
        },
{
    let n = names.len();
    let mut i: usize = 0;
    while i < n
        invariant
            n == names@.len(),
            i <= n,
            forall|j: int| 0 <= j < i ==> names@[j]@ != p4_name@,
        decreases n - i,
    {
        if str_eq(names[i].as_str(), p4_name) {
            return Some(i);
        }
        i += 1;
    }
    None
}

/// Adds the tables of the platform's schema to the program's schema.
pub fn merge_schema(program: BFRTInfo, platform: BFRTInfo) -> (r: BFRTInfo)
    ensures
        r@ == merged(program@, platform@),
{
    let mut info = program;
    let mut tables = platform.tables();
    let ghost all = crate::bfrt::info::tables_view(tables@);
    let ghost start = info@;
    let n = tables.len();
    let mut rest: Vec<crate::bfrt::table_object::BFRTTableObject> = Vec::new();
    // the tables leave `tables` from the back and enter `info` from the front
    let mut k: usize = n;
    while k > 0
        invariant
            k == tables@.len(),
            k <= n,
            rest@.len() == n - k,
            forall|j: int| 0 <= j < k ==> (#[trigger] tables@[j])@ == all[j],
            forall|j: int| 0 <= j < rest@.len() ==> (#[trigger] rest@[j])@ == all[n - 1 - j],
            all.len() == n,
        decreases k,
    {
        let t = tables.pop().unwrap();
        rest.push(t);
        k -= 1;
    }
    let mut i: usize = 0;
    proof {
        assert(start.tables + all.take(0) =~= start.tables);
    }
    while i < n
        invariant
            i <= n,
            all.len() == n,
            rest@.len() == n - i,
            forall|j: int| 0 <= j < rest@.len() ==> (#[trigger] rest@[j])@ == all[n - 1 - j],
            info@.tables == start.tables + all.take(i as int),
            info@.learn_filters == start.learn_filters,
        decreases n - i,
    {
        let t = rest.pop().unwrap();
        let ghost before = info@.tables;
        info.add_table(t);
        proof {
            assert(t@ == all[i as int]);
            assert(start.tables + all.take(i as int + 1) =~= before.push(t@));
        }
        i += 1;
    }
    proof {
        assert(all.take(n as int) =~= all);
        assert(info@ == merged(start, platform@));
    }
    info
}

/// What goes over the wire for a batch of requests.
#[derive(Debug)]
pub enum WireCall {
    Read(ReadRequest),
    Write(WriteRequest),
}

pub enum WireCallView {
    Read(ReadRequestView),
    Write(WriteRequestView),
}

impl View for WireCall {
    type V = WireCallView;

    open spec fn view(&self) -> WireCallView {
        match self {
            WireCall::Read(r) => WireCallView::Read(r@),
            WireCall::Write(w) => WireCallView::Write(w@),
        }
    }
}

pub open spec fn requests_view(requests: Seq<Request>) -> Seq<RequestView> {
    requests.map_values(|r: Request| r@)
}

pub open spec fn entities_view(entities: Seq<Entity>) -> Seq<EntityView> {
    entities.map_values(|e: Entity| e@)
}

pub open spec fn updates_view(updates: Seq<Update>) -> Seq<UpdateView> {
    updates.map_values(|u: Update| u@)
}

pub open spec fn entries_view(entries: Seq<TableEntry>) -> Seq<TableEntryView> {
    entries.map_values(|e: TableEntry| e@)
}

impl SchemaCatalog {
    /// The table that a request names.
    pub open spec fn request_table(self, req: RequestView) -> Result<TableSchema, ErrorSpec> {
        match self.table_by_name(req.table_name) {
            Some(i) => Ok(self.tables[i]),
            None => Err(ErrorSpec::UnknownTable { table_name: req.table_name }),
        }
    }

    /// The entity that reads what one request asks for.
    pub open spec fn read_entity(self, req: RequestView, target: TargetDevice) -> Result<EntityView, ErrorSpec> {
        match self.request_table(req) {
            Err(e) => Err(e),
            Ok(t) => t.read_entity(req, target),
        }
    }

    pub open spec fn reader(self, target: TargetDevice) -> spec_fn(RequestView) -> Result<EntityView, ErrorSpec> {
        |req: RequestView| self.read_entity(req, target)
    }

    /// The update that one request of a batch of the kind `kind` stands for.
    pub open spec fn update(self, kind: RequestType, req: RequestView, target: TargetDevice) -> Result<
        UpdateView,
        ErrorSpec,
    > {
        match self.request_table(req) {
            Err(e) => Err(e),
            Ok(t) => match kind {
                RequestType::Operation => Ok(t.operation_update(req)),
                RequestType::Delete => t.delete_update(req, target),
                _ => t.write_update(req, target),
            },
        }
    }

    pub open spec fn updater(self, kind: RequestType, target: TargetDevice) -> spec_fn(RequestView) -> Result<
        UpdateView,
        ErrorSpec,
    > {
        |req: RequestView| self.update(kind, req, target)
    }

    /// The entry that one entity of a read response stands for.
    pub open spec fn read_result(self, e: EntityView) -> Result<TableEntryView, ErrorSpec> {
        match e {
            EntityView::TableEntry(t) => match self.table_by_id(t.table_id) {
                None => Err(ErrorSpec::UnknownTableId { table_id: t.table_id }),
                Some(i) => self.tables[i].parse_entity(e, self.tables[i].name),
            },
            _ => Err(ErrorSpec::UnknownReadResult),
        }
    }

    pub open spec fn result_reader(self) -> spec_fn(EntityView) -> Result<TableEntryView, ErrorSpec> {
        |e: EntityView| self.read_result(e)
    }
}

impl SessionView {
    /// The one wire call for a batch of requests. An empty batch is
    /// refused. The kind of the first request decides for the whole batch:
    /// a read batch becomes a read, any other a write with one update for
    /// each request in order.
    pub open spec fn dispatch(self, requests: Seq<RequestView>) -> Result<WireCallView, ErrorSpec> {
        let schema = self.schema->Some_0;
        if requests.len() == 0 {
            Err(ErrorSpec::RequestEmpty)
        } else if requests[0].request_type is Read {
            match try_map(requests, schema.reader(self.target)) {
                Err(e) => Err(e),
                Ok(entities) => Ok(
                    WireCallView::Read(
                        ReadRequestView {
                            target: self.target,
                            client_id: self.client_id,
                            entities,
                            p4_name: self.p4_name->Some_0,
                        },
                    ),
                ),
            }
        } else {
            match try_map(requests, schema.updater(requests[0].request_type, self.target)) {
                Err(e) => Err(e),
                Ok(updates) => Ok(
                    WireCallView::Write(
                        WriteRequestView {
                            target: self.target,
                            client_id: self.client_id,
                            updates,
                            atomicity: 0,
                            p4_name: self.p4_name->Some_0,
                        },
                    ),
                ),
            }
        }
    }
}

impl SwitchConnection {
    #[verifier::type_invariant]
    spec fn inv(self) -> bool {
        &&& self.state is Ready <==> self.bfrt_info is Some
        &&& self.state is Subscribed || self.state is Bound || self.state is Ready ==> self.p4_name is Some
    }

    /// A connection to the switch at `ip` and `port`, still to be configured.
    pub fn builder(ip: &str, port: u16) -> (r: SwitchConnectionBuilder)
        ensures
            r@ == (BuilderView { ip: ip@, port, device_id: 0, client_id: 1, p4_name: None, config: None }),
    {
        SwitchConnectionBuilder { ip: ip.to_owned(), port, device_id: 0, client_id: 1, p4_name: None, config: None }
    }

    pub fn state(&self) -> (r: SessionState)
        ensures
            r == self@.state,
            self@.wf(),
    {
        proof {
            use_type_invariant(self);
        }
        self.state
    }

    pub fn is_ready(&self) -> (r: bool)
        ensures
            r == self@.state is Ready,
            self@.wf(),
    {
        proof {
            use_type_invariant(self);
        }
        match self.state {
            SessionState::Ready => true,
            _ => false,
        }
    }

    pub fn client_id(&self) -> (r: u32)
        ensures
            r == self@.client_id,
    {
        self.client_id
    }

    pub fn device_id(&self) -> (r: u32)
        ensures
            r == self@.device_id,
    {
        self.device_id
    }

    pub fn ip(&self) -> (r: &str)
        ensures
            r@ == self@.ip,
    {
        self.ip.as_str()
    }

    pub fn port(&self) -> (r: u16)
        ensures
            r == self@.port,
    {
        self.port
    }

    /// The name of the program, once it is known.
    pub fn p4_name(&self) -> (r: Option<&str>)
        ensures
            match r {
                Some(n) => self@.p4_name == Some(n@),
                None => self@.p4_name is None,
            },
    {
        match &self.p4_name {
            Some(n) => Some(n.as_str()),
            None => None,
        }
    }

    /// The schema, once the session is ready.
    pub fn bfrt_info(&self) -> (r: Option<&BFRTInfo>)
        ensures
            match r {
                Some(i) => self@.schema == Some(i@),
                None => self@.schema is None,
            },
    {
        match &self.bfrt_info {
            Some(i) => Some(i),
            None => None,
        }
    }

    /// A copy of the schema for a task that runs beside the session: the
    /// same tables and learn filters, never changed again.
    pub fn schema_snapshot(&self) -> (r: Option<BFRTInfo>)
        ensures
            schema_view(r) == self@.schema,
    {
        match &self.bfrt_info {
            Some(i) => Some(i.clone()),
            None => None,
        }
    }

    pub fn get_target_device(&self) -> (r: TargetDevice)
        ensures
            r == self@.target,
    {
        TargetDevice {
            device_id: self.target.device_id,
            pipe_id: self.target.pipe_id,
            direction: self.target.direction,
            prsr_id: self.target.prsr_id,
        }
    }

    /// The subscription that opens the notification stream.
    pub fn subscribe_request(&self) -> (r: StreamMessageRequest)
        ensures
            r == self@.subscribe_request(),
    {
        StreamMessageRequest {
            client_id: self.client_id,
            subscribe: Subscribe {
                is_master: true,
                device_id: self.device_id,
                notifications: Some(
                    Notifications {
                        enable_learn_notifications: true,
                        enable_idletimeout_notifications: true,
                        enable_port_status_change_notifications: true,
                    },
                ),
                status: None,
            },
        }
    }

    /// The session given up.
    fn fail(self) -> (r: SwitchConnection)
        ensures
            r@ == self@.failed(),
    {
        SwitchConnection {
            ip: self.ip,
            port: self.port,
            device_id: self.device_id,
            client_id: self.client_id,
            bfrt_info: None,
            target: self.target,
            p4_name: self.p4_name,
            config: self.config,
            state: SessionState::Failed,
            uploaded: self.uploaded,
        }
    }

    fn unexpected(self) -> (r: (SwitchConnection, SessionAction))
        ensures
            r.0@ == self@.failed(),
            r.1@ == ActionView::Abort(ErrorSpec::HandshakeError { message: unexpected_event_text() }),
    {
        (self.fail(), SessionAction::Abort(RBFRTError::HandshakeError { message: "Unexpected event.".to_owned() }))
    }

    fn begin_subscription(self) -> (r: (SwitchConnection, SessionAction))
        requires
            self@.state is Connected,
        ensures
            r.0@ == self@.begin_subscription().0,
            r.1@ == self@.begin_subscription().1,
    {
        if self.p4_name.is_some() {
            let req = self.subscribe_request();
            (self, SessionAction::Subscribe(req))
        } else {
            (
                self.fail(),
                SessionAction::Abort(RBFRTError::HandshakeError { message: "P4 name not set.".to_owned() }),
            )
        }
    }

    /// Takes what the transport reports and says what to do next.
    pub fn handshake(self, event: SessionEvent) -> (r: (SwitchConnection, SessionAction))
        ensures
            r.0@ == self@.step(event@).0,
            r.1@ == self@.step(event@).1,
    {
        proof {
            use_type_invariant(&self);
        }
        match self.state {
            SessionState::Disconnected => match event {
                SessionEvent::TransportUp => {
                    let s = SwitchConnection { state: SessionState::Connected, ..self };
                    if s.config.is_some() && !s.uploaded {
                        let path = match &s.config {
                            Some(p) => p.clone(),
                            None => String::new(),
                        };
                        (s, SessionAction::UploadConfig { path })
                    } else {
                        s.begin_subscription()
                    }
                },
                SessionEvent::TransportDown { reason } => {
                    let e = RBFRTError::ConnectionError { ip: self.ip.clone(), port: self.port, orig_e: reason };
                    (self.fail(), SessionAction::Abort(e))
                },
                _ => self.unexpected(),
            },
            SessionState::Connected => match event {
                SessionEvent::ConfigAccepted { p4_name } => {
                    if self.config.is_some() && !self.uploaded {
                        let s = SwitchConnection { uploaded: true, p4_name: Some(p4_name), ..self };
                        s.begin_subscription()
                    } else {
                        self.unexpected()
                    }
                },
                SessionEvent::ConfigRejected { message, details } => {
                    if self.config.is_some() && !self.uploaded {
                        (self.fail(), SessionAction::Abort(RBFRTError::GRPCError { message, details }))
                    } else {
                        self.unexpected()
                    }
                },
                SessionEvent::SubscribeReply(msg) => {
                    if (self.config.is_some() && !self.uploaded) || self.p4_name.is_none() {
                        self.unexpected()
                    } else if is_acknowledged(&msg) {
                        let p4_name = match &self.p4_name {
                            Some(n) => n.clone(),
                            None => String::new(),
                        };
                        (SwitchConnection { state: SessionState::Subscribed, ..self }, SessionAction::Bind { p4_name })
                    } else {
                        (
                            self.fail(),
                            SessionAction::Abort(
                                RBFRTError::HandshakeError { message: "Notification subscription failed.".to_owned() },
                            ),
                        )
                    }
                },
                _ => self.unexpected(),
            },
            SessionState::Subscribed => match event {
                SessionEvent::BindAccepted => {
                    let action = SessionAction::FetchSchema { device_id: self.device_id, client_id: self.client_id };
                    (SwitchConnection { state: SessionState::Bound, ..self }, action)
                },
                SessionEvent::BindRejected { message, details } => (
                    self.fail(),
                    SessionAction::Abort(RBFRTError::GRPCError { message, details }),
                ),
                _ => self.unexpected(),
            },
            SessionState::Bound => match event {
                SessionEvent::SchemaFetched { program, platform } => {
                    match program {
                        Some(p) => {
                            let info = merge_schema(p, platform);
                            (
                                SwitchConnection { state: SessionState::Ready, bfrt_info: Some(info), ..self },
                                SessionAction::StartNotifications,
                            )
                        },
                        None => {
                            let name = match &self.p4_name {
                                Some(n) => n.clone(),
                                None => String::new(),
                            };
                            (self.fail(), SessionAction::Abort(RBFRTError::P4ProgramError { name }))
                        },
                    }
                },
                SessionEvent::SchemaRefused { reason } => {
                    let e = RBFRTError::GetForwardingPipelineError {
                        device_id: self.device_id,
                        client_id: self.client_id,
                        orig_e: reason,
                    };
                    (self.fail(), SessionAction::Abort(e))
                },
                _ => self.unexpected(),
            },
            SessionState::Ready => (
                self,
                SessionAction::Abort(RBFRTError::HandshakeError { message: "Session is established.".to_owned() }),
            ),
            SessionState::Failed => self.unexpected(),
        }
    }

    /// Whether the schema has a table that answers to `name`.
    pub fn has_table(&self, name: &str) -> (r: bool)
        requires
            self@.state is Ready,
        ensures
            r == self@.schema->Some_0.table_by_name(name@) is Some,
    {
        proof {
            use_type_invariant(self);
        }
        match &self.bfrt_info {
            Some(info) => info.table_get(name).is_ok(),
            None => false,
        }
    }

    /// Encodes a batch of requests into the one wire call that carries it.
    /// The batch has to be of one kind; the first request's kind is taken
    /// for all.
    pub fn dispatch_request(&self, request: &Vec<Request>) -> (r: Result<WireCall, RBFRTError>)
        requires
            self@.state is Ready,
        ensures
            result_view(r) == self@.dispatch(requests_view(request@)),
            request@.len() == 0 ==> r is Err && r->Err_0@ == ErrorSpec::RequestEmpty,
    {
        proof {
            use_type_invariant(self);
        }
        let bfrt_info = match &self.bfrt_info {
            Some(info) => info,
            None => {
                return Err(RBFRTError::RequestEmpty {  });
            },
        };
        let p4_name = match &self.p4_name {
            Some(n) => n.clone(),
            None => String::new(),
        };
        let n = request.len();
        if n == 0 {
            return Err(RBFRTError::RequestEmpty {  });
        }
        let ghost reqs = requests_view(request@);
        let kind = *request[0].get_type();
        assert(reqs[0] == request@[0]@);
        match kind {
            RequestType::Read => {
                let ghost f = bfrt_info@.reader(self.target);
                let mut entities: Vec<Entity> = Vec::new();
                let mut i: usize = 0;
                proof {
                    assert(reqs.take(0) =~= Seq::<RequestView>::empty());
                    assert(entities_view(entities@) =~= Seq::<EntityView>::empty());
                }
                while i < n
                    invariant
                        n == request.len(),
                        n > 0,
                        i <= n,
                        reqs == requests_view(request@),
                        reqs[0].request_type is Read,
                        self@.schema == Some(bfrt_info@),
                        self@.p4_name == Some(p4_name@),
                        self@.target == self.target,
                        f == bfrt_info@.reader(self.target),
                        try_map(reqs.take(i as int), f) == Ok::<Seq<EntityView>, ErrorSpec>(
                            entities_view(entities@),
                        ),
                    decreases n - i,
                {
                    proof {
                        lemma_try_map_step(reqs, f, i as int);
                        assert(reqs[i as int] == request@[i as int]@);
                        assert(f(reqs[i as int]) == bfrt_info@.read_entity(reqs[i as int], self.target));
                    }
                    let req = &request[i];
                    let table = match bfrt_info.table_get(req.get_table_name()) {
                        Ok(t) => t,
                        Err(e) => {
                            proof {
                                lemma_try_map_prefix_err(reqs, f, i as int + 1);
                            }
                            return Err(e);
                        },
                    };
                    let entity = match table.build_read_request(req, &self.target) {
                        Ok(x) => x,
                        Err(e) => {
                            proof {
                                lemma_try_map_prefix_err(reqs, f, i as int + 1);
                            }
                            return Err(e);
                        },
                    };
                    let ghost before = entities@;
                    entities.push(entity);
                    assert(entities_view(entities@) =~= entities_view(before).push(entity@));
                    i += 1;
                }
                assert(reqs.take(n as int) =~= reqs);
                Ok(
                    WireCall::Read(
                        ReadRequest {
                            target: self.get_target_device(),
                            client_id: self.client_id,
                            entities,
                            p4_name,
                        },
                    ),
                )
            },
            _ => {
                let ghost f = bfrt_info@.updater(kind, self.target);
                let mut updates: Vec<Update> = Vec::new();
                let mut i: usize = 0;
                proof {
                    assert(reqs.take(0) =~= Seq::<RequestView>::empty());
                    assert(updates_view(updates@) =~= Seq::<UpdateView>::empty());
                }
                while i < n
                    invariant
                        n == request.len(),
                        n > 0,
                        i <= n,
                        reqs == requests_view(request@),
                        reqs[0].request_type == kind,
                        !(kind is Read),
                        self@.schema == Some(bfrt_info@),
                        self@.p4_name == Some(p4_name@),
                        self@.target == self.target,
                        f == bfrt_info@.updater(kind, self.target),
                        try_map(reqs.take(i as int), f) == Ok::<Seq<UpdateView>, ErrorSpec>(updates_view(updates@)),
                    decreases n - i,
                {
                    proof {
                        lemma_try_map_step(reqs, f, i as int);
                        assert(reqs[i as int] == request@[i as int]@);
                        assert(f(reqs[i as int]) == bfrt_info@.update(kind, reqs[i as int], self.target));
                    }
                    let req = &request[i];
                    let table = match bfrt_info.table_get(req.get_table_name()) {
                        Ok(t) => t,
                        Err(e) => {
                            proof {
                                lemma_try_map_prefix_err(reqs, f, i as int + 1);
                            }
                            return Err(e);
                        },
                    };
                    let built = match kind {
                        RequestType::Operation => table.build_operation_request(req),
                        RequestType::Delete => table.build_delete_request(req, &self.target),
                        _ => table.build_write_request(req, &self.target),
                    };
                    let update = match built {
                        Ok(x) => x,
                        Err(e) => {
                            proof {
                                lemma_try_map_prefix_err(reqs, f, i as int + 1);
                            }
                            return Err(e);
                        },
                    };
                    let ghost before = updates@;
                    updates.push(update);
                    assert(updates_view(updates@) =~= updates_view(before).push(update@));
                    i += 1;
                }
                assert(reqs.take(n as int) =~= reqs);
                Ok(
                    WireCall::Write(
                        WriteRequest {
                            target: self.get_target_device(),
                            client_id: self.client_id,
                            updates,
                            atomicity: 0,
                            p4_name,
                        },
                    ),
                )
            },
        }
    }

    /// Encodes a batch of requests as a batch of the given kind.
    pub fn prepare(&self, requests: &Vec<Request>, kind: RequestType) -> (r: Result<WireCall, RBFRTError>)
        requires
            self@.state is Ready,
        ensures
            result_view(r) == self@.dispatch(
                requests_view(requests@).map_values(|q: RequestView| RequestView { request_type: kind, ..q }),
            ),
            requests@.len() == 0 ==> r is Err && r->Err_0@ == ErrorSpec::RequestEmpty,
    {
        let tagged = tag_requests(requests, kind);
        assert(requests_view(tagged@) =~= requests_view(requests@).map_values(
            |q: RequestView| RequestView { request_type: kind, ..q },
        ));
        self.dispatch_request(&tagged)
    }

    /// Decodes the entities of a read response, entry by entry. An entity
    /// that is no table entry is refused.
    pub fn parse_read_response(&self, entities: Vec<Entity>) -> (r: Result<Vec<TableEntry>, RBFRTError>)
        requires
            self@.state is Ready,
        ensures
            match r {
                Ok(entries) => try_map(entities_view(entities@), self@.schema->Some_0.result_reader()) == Ok::<
                    Seq<TableEntryView>,
                    ErrorSpec,
                >(entries_view(entries@)),
                Err(e) => try_map(entities_view(entities@), self@.schema->Some_0.result_reader()) == Err::<
                    Seq<TableEntryView>,
                    ErrorSpec,
                >(e@),
            },
    {
        proof {
            use_type_invariant(self);
        }
        let bfrt_info = match &self.bfrt_info {
            Some(info) => info,
            None => {
                return Err(RBFRTError::UnknownReadResult {  });
            },
        };
        let ghost orig = entities@;
        let ghost all = entities_view(entities@);
        let ghost f = bfrt_info@.result_reader();
        let n = entities.len();
        let mut rest = entities;
        let mut entries: Vec<TableEntry> = Vec::new();
        let mut i: usize = 0;
        proof {
            assert(all.take(0) =~= Seq::<EntityView>::empty());
            assert(entries_view(entries@) =~= Seq::<TableEntryView>::empty());
        }
        while i < n
            invariant
                n == rest@.len(),
                i <= n,
                all.len() == n,
                all == entities_view(orig),
                orig == entities@,
                forall|j: int| i <= j < n ==> (#[trigger] rest@[j])@ == all[j],
                self@.schema == Some(bfrt_info@),
                f == bfrt_info@.result_reader(),
                try_map(all.take(i as int), f) == Ok::<Seq<TableEntryView>, ErrorSpec>(entries_view(entries@)),
            decreases n - i,
        {
            proof {
                lemma_try_map_step(all, f, i as int);
                assert(f(all[i as int]) == bfrt_info@.read_result(all[i as int]));
            }
            let mut entity = Entity::TableUsage;
            let ghost before_rest = rest@;
            std::mem::swap(&mut entity, &mut rest[i]);
            let parsed = match &entity {
                Entity::TableEntry(table_entry) => {
                    match bfrt_info.table_get_by_id(table_entry.table_id) {
                        Ok(table) => table.parse_read_request(entity, table.name()),
                        Err(e) => Err(e),
                    }
                },
                _ => Err(RBFRTError::UnknownReadResult {  }),
            };
            let entry = match parsed {
                Ok(x) => x,
                Err(e) => {
                    proof {
                        lemma_try_map_prefix_err(all, f, i as int + 1);
                    }
                    return Err(e);
                },
            };
            let ghost before = entries@;
            entries.push(entry);
            assert(entries_view(entries@) =~= entries_view(before).push(entry@));
            i += 1;
        }
        assert(all.take(n as int) =~= all);
        Ok(entries)
    }
}

/// Whether a message of the notification stream acknowledges the subscription.
pub fn is_acknowledged(msg: &StreamMessageResponse) -> (r: bool)
    ensures
        r == acknowledges(msg@),
{
    match msg {
        StreamMessageResponse::Subscribe(s) => match s.status {
            Some(code) => code == 0,
            None => false,
        },
        _ => false,
    }
}

} // verus!
