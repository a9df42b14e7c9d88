use vstd::prelude::*;

verus! {

/// The device, pipe, direction and parser that a call addresses.
#[derive(Debug, Clone, Copy, PartialEq, Eq, Structural)]
pub struct TargetDevice {
    pub device_id: u32,
    pub pipe_id: u32,
    pub direction: u32,
    pub prsr_id: u32,
}

/// How one key field is matched, with the bytes of the match.
#[derive(Debug, Clone, PartialEq, Eq)]
pub enum MatchType {
    Exact { value: Vec<u8> },
    Ternary { value: Vec<u8>, mask: Vec<u8> },
    Lpm { value: Vec<u8>, prefix_len: i32 },
    Range { low: Vec<u8>, high: Vec<u8> },
    Optional { value: Vec<u8>, is_valid: bool },
}

pub enum MatchTypeView {
    Exact { value: Seq<u8> },
    Ternary { value: Seq<u8>, mask: Seq<u8> },
    Lpm { value: Seq<u8>, prefix_len: i32 },
    Range { low: Seq<u8>, high: Seq<u8> },
    Optional { value: Seq<u8>, is_valid: bool },
}

impl View for MatchType {
    type V = MatchTypeView;

    open spec fn view(&self) -> MatchTypeView {
        match self {
            MatchType::Exact { value } => MatchTypeView::Exact { value: value@ },
            MatchType::Ternary { value, mask } => MatchTypeView::Ternary { value: value@, mask: mask@ },
            MatchType::Lpm { value, prefix_len } => MatchTypeView::Lpm { value: value@, prefix_len: *prefix_len },
            MatchType::Range { low, high } => MatchTypeView::Range { low: low@, high: high@ },
            MatchType::Optional { value, is_valid } => MatchTypeView::Optional {
                value: value@,
                is_valid: *is_valid,
            },
        }
    }
}

/// One field of a table key.
#[derive(Debug, Clone, PartialEq, Eq)]
pub struct KeyField {
    pub field_id: u32,
    pub match_type: MatchType,
}

pub struct KeyFieldView {
    pub field_id: u32,
    pub match_type: MatchTypeView,
}

impl View for KeyField {
    type V = KeyFieldView;

    open spec fn view(&self) -> KeyFieldView {
        KeyFieldView { field_id: self.field_id, match_type: self.match_type@ }
    }
}

/// The key of a table entry.
#[derive(Debug, Clone, PartialEq, Eq)]
pub struct TableKey {
    pub fields: Vec<KeyField>,
}

impl View for TableKey {
    type V = Seq<KeyFieldView>;

    open spec fn view(&self) -> Seq<KeyFieldView> {
        self.fields@.map_values(|f: KeyField| f@)
    }
}

/// What identifies a table entry: its key or a handle.
#[derive(Debug, Clone, PartialEq, Eq)]
pub enum TableValue {
    Key(TableKey),
    HandleId(u32),
}

pub enum TableValueView {
    Key(Seq<KeyFieldView>),
    HandleId(u32),
}

impl View for TableValue {
    type V = TableValueView;

    open spec fn view(&self) -> TableValueView {
        match self {
            TableValue::Key(k) => TableValueView::Key(k@),
            TableValue::HandleId(h) => TableValueView::HandleId(*h),
        }
    }
}

/// The payload of one data field. A float travels as its bit pattern.
#[derive(Debug, Clone, PartialEq, Eq)]
pub enum DataValue {
    Stream(Vec<u8>),
    FloatVal(u32),
    StrVal(String),
    IntArrVal(Vec<u32>),
    BoolArrVal(Vec<bool>),
    ContainerArrVal,
    BoolVal(bool),
    StrArrVal(Vec<String>),
}

pub enum DataValueView {
    Stream(Seq<u8>),
    FloatVal(u32),
    StrVal(Seq<char>),
    IntArrVal(Seq<u32>),
    BoolArrVal(Seq<bool>),
    ContainerArrVal,
    BoolVal(bool),
    StrArrVal(Seq<Seq<char>>),
}

impl View for DataValue {
    type V = DataValueView;

    open spec fn view(&self) -> DataValueView {
        match self {
            DataValue::Stream(s) => DataValueView::Stream(s@),
            DataValue::FloatVal(bits) => DataValueView::FloatVal(*bits),
            DataValue::StrVal(s) => DataValueView::StrVal(s@),
            DataValue::IntArrVal(v) => DataValueView::IntArrVal(v@),
            DataValue::BoolArrVal(v) => DataValueView::BoolArrVal(v@),
            DataValue::ContainerArrVal => DataValueView::ContainerArrVal,
            DataValue::BoolVal(b) => DataValueView::BoolVal(*b),
            DataValue::StrArrVal(v) => DataValueView::StrArrVal(v@.map_values(|s: String| s@)),
        }
    }
}

/// One data field of a table entry or of a digest record.
#[derive(Debug, Clone, PartialEq, Eq)]
pub struct DataField {
    pub field_id: u32,
    pub value: DataValue,
}

pub struct DataFieldView {
    pub field_id: u32,
    pub value: DataValueView,
}

impl View for DataField {
    type V = DataFieldView;

    open spec fn view(&self) -> DataFieldView {
        DataFieldView { field_id: self.field_id, value: self.value@ }
    }
}

/// The action of a table entry with its data fields.
#[derive(Debug, Clone, PartialEq, Eq)]
pub struct TableData {
    pub action_id: u32,
    pub fields: Vec<DataField>,
}

pub struct TableDataView {
    pub action_id: u32,
    pub fields: Seq<DataFieldView>,
}

impl View for TableData {
    type V = TableDataView;

    open spec fn view(&self) -> TableDataView {
        TableDataView { action_id: self.action_id, fields: self.fields@.map_values(|f: DataField| f@) }
    }
}

/// A table entry as it travels.
#[derive(Debug, Clone, PartialEq, Eq)]
pub struct TableEntry {
    pub table_id: u32,
    pub data: Option<TableData>,
    pub is_default_entry: bool,
    pub entry_tgt: Option<TargetDevice>,
    pub value: Option<TableValue>,
}

pub struct TableEntryView {
    pub table_id: u32,
    pub data: Option<TableDataView>,
    pub is_default_entry: bool,
    pub entry_tgt: Option<TargetDevice>,
    pub value: Option<TableValueView>,
}

impl View for TableEntry {
    type V = TableEntryView;

    open spec fn view(&self) -> TableEntryView {
        TableEntryView {
            table_id: self.table_id,
            data: match self.data {
                Some(d) => Some(d@),
                None => None,
            },
            is_default_entry: self.is_default_entry,
            entry_tgt: self.entry_tgt,
            value: match self.value {
                Some(v) => Some(v@),
                None => None,
            },
        }
    }
}

/// An operation on a whole table.
#[derive(Debug, Clone, PartialEq, Eq)]
pub struct TableOperation {
    pub table_id: u32,
    pub table_operations_type: String,
}

pub struct TableOperationView {
    pub table_id: u32,
    pub table_operations_type: Seq<char>,
}

impl View for TableOperation {
    type V = TableOperationView;

    open spec fn view(&self) -> TableOperationView {
        TableOperationView { table_id: self.table_id, table_operations_type: self.table_operations_type@ }
    }
}

/// What a read or a write carries. Of the kinds that this client neither
/// builds nor decodes only the tag is kept.
#[derive(Debug, Clone, PartialEq, Eq)]
pub enum Entity {
    TableEntry(TableEntry),
    TableUsage,
    TableAttribute,
    TableOperation(TableOperation),
    ObjectId,
    Handle,
}

pub enum EntityView {
    TableEntry(TableEntryView),
    TableUsage,
    TableAttribute,
    TableOperation(TableOperationView),
    ObjectId,
    Handle,
}

impl View for Entity {
    type V = EntityView;

    open spec fn view(&self) -> EntityView {
        match self {
            Entity::TableEntry(t) => EntityView::TableEntry(t@),
            Entity::TableUsage => EntityView::TableUsage,
            Entity::TableAttribute => EntityView::TableAttribute,
            Entity::TableOperation(o) => EntityView::TableOperation(o@),
            Entity::ObjectId => EntityView::ObjectId,
            Entity::Handle => EntityView::Handle,
        }
    }
}

/// What an update does with its entity.
#[derive(Debug, Clone, Copy, PartialEq, Eq, Structural)]
pub enum UpdateType {
    Unspecified,
    Insert,
    Modify,
    ModifyInc,
    Delete,
}

impl UpdateType {
    /// The number that stands for the update type on the wire.
    pub open spec fn spec_code(self) -> i32 {
        match self {
            UpdateType::Unspecified => 0,
            UpdateType::Insert => 1,
            UpdateType::Modify => 2,
            UpdateType::ModifyInc => 3,
            UpdateType::Delete => 4,
        }
    }

    pub fn code(self) -> (r: i32)
        ensures
            r == self.spec_code(),
    {
        match self {
            UpdateType::Unspecified => 0,
            UpdateType::Insert => 1,
            UpdateType::Modify => 2,
            UpdateType::ModifyInc => 3,
            UpdateType::Delete => 4,
        }
    }
}

/// One entry of a write batch.
#[derive(Debug, Clone, PartialEq, Eq)]
pub struct Update {
    pub update_type: UpdateType,
    pub entity: Entity,
}

pub struct UpdateView {
    pub update_type: UpdateType,
    pub entity: EntityView,
}

impl View for Update {
    type V = UpdateView;

    open spec fn view(&self) -> UpdateView {
        UpdateView { update_type: self.update_type, entity: self.entity@ }
    }
}

/// A batch of reads.
#[derive(Debug, Clone, PartialEq, Eq)]
pub struct ReadRequest {
    pub target: TargetDevice,
    pub client_id: u32,
    pub entities: Vec<Entity>,
    pub p4_name: String,
}

pub struct ReadRequestView {
    pub target: TargetDevice,
    pub client_id: u32,
    pub entities: Seq<EntityView>,
    pub p4_name: Seq<char>,
}

impl View for ReadRequest {
    type V = ReadRequestView;

    open spec fn view(&self) -> ReadRequestView {
        ReadRequestView {
            target: self.target,
            client_id: self.client_id,
            entities: self.entities@.map_values(|e: Entity| e@),
            p4_name: self.p4_name@,
        }
    }
}

/// A batch of updates.
#[derive(Debug, Clone, PartialEq, Eq)]
pub struct WriteRequest {
    pub target: TargetDevice,
    pub client_id: u32,
    pub updates: Vec<Update>,
    pub atomicity: i32,
    pub p4_name: String,
}

pub struct WriteRequestView {
    pub target: TargetDevice,
    pub client_id: u32,
    pub updates: Seq<UpdateView>,
    pub atomicity: i32,
    pub p4_name: Seq<char>,
}

impl View for WriteRequest {
    type V = WriteRequestView;

    open spec fn view(&self) -> WriteRequestView {
        WriteRequestView {
            target: self.target,
            client_id: self.client_id,
            updates: self.updates@.map_values(|u: Update| u@),
            atomicity: self.atomicity,
            p4_name: self.p4_name@,
        }
    }
}

/// The notifications that a subscription asks for.
#[derive(Debug, Clone, Copy, PartialEq, Eq, Structural)]
pub struct Notifications {
    pub enable_learn_notifications: bool,
    pub enable_idletimeout_notifications: bool,
    pub enable_port_status_change_notifications: bool,
}

/// A subscription, or the switch's answer to one with its status code.
#[derive(Debug, Clone, Copy, PartialEq, Eq, Structural)]
pub struct Subscribe {
    pub is_master: bool,
    pub device_id: u32,
    pub notifications: Option<Notifications>,
    pub status: Option<i32>,
}

/// What the client sends on the notification stream.
#[derive(Debug, Clone, Copy, PartialEq, Eq, Structural)]
pub struct StreamMessageRequest {
    pub client_id: u32,
    pub subscribe: Subscribe,
}

/// What a pipeline-config call asks the switch to do with the programs.
#[derive(Debug, Clone, Copy, PartialEq, Eq, Structural)]
pub enum ConfigAction {
    Bind,
    Verify,
    VerifyAndWarmInitBegin,
    VerifyAndWarmInitBeginAndEnd,
    WarmInitEnd,
    ReconcileAndWarmInitEnd,
}

/// How the device is initialised when programs are loaded.
#[derive(Debug, Clone, Copy, PartialEq, Eq, Structural)]
pub enum DevInitMode {
    FastReconfig,
    Hitless,
}

/// One pipeline profile of a program: its context and its binary.
#[derive(Debug, Clone, PartialEq, Eq)]
pub struct Profile {
    pub profile_name: String,
    pub context: Vec<u8>,
    pub binary: Vec<u8>,
    pub pipe_scope: Vec<u32>,
}

pub struct ProfileView {
    pub profile_name: Seq<char>,
    pub context: Seq<u8>,
    pub binary: Seq<u8>,
    pub pipe_scope: Seq<u32>,
}

impl View for Profile {
    type V = ProfileView;

    open spec fn view(&self) -> ProfileView {
        ProfileView {
            profile_name: self.profile_name@,
            context: self.context@,
            binary: self.binary@,
            pipe_scope: self.pipe_scope@,
        }
    }
}

/// A program with its schema and its profiles.
#[derive(Debug, Clone, PartialEq, Eq)]
pub struct ForwardingPipelineConfig {
    pub p4_name: String,
    pub bfruntime_info: Vec<u8>,
    pub profiles: Vec<Profile>,
}

pub struct ForwardingPipelineConfigView {
    pub p4_name: Seq<char>,
    pub bfruntime_info: Seq<u8>,
    pub profiles: Seq<ProfileView>,
}

impl View for ForwardingPipelineConfig {
    type V = ForwardingPipelineConfigView;

    open spec fn view(&self) -> ForwardingPipelineConfigView {
        ForwardingPipelineConfigView {
            p4_name: self.p4_name@,
            bfruntime_info: self.bfruntime_info@,
            profiles: self.profiles@.map_values(|p: Profile| p@),
        }
    }
}

/// A pipeline-config call: binds the client to a program, or loads programs.
#[derive(Debug, Clone, PartialEq, Eq)]
pub struct SetForwardingPipelineConfigRequest {
    pub device_id: u32,
    pub client_id: u32,
    pub action: ConfigAction,
    pub dev_init_mode: DevInitMode,
    pub base_path: String,
    pub config: Vec<ForwardingPipelineConfig>,
}

pub struct SetForwardingPipelineConfigRequestView {
    pub device_id: u32,
    pub client_id: u32,
    pub action: ConfigAction,
    pub dev_init_mode: DevInitMode,
    pub base_path: Seq<char>,
    pub config: Seq<ForwardingPipelineConfigView>,
}

impl View for SetForwardingPipelineConfigRequest {
    type V = SetForwardingPipelineConfigRequestView;

    open spec fn view(&self) -> SetForwardingPipelineConfigRequestView {
        SetForwardingPipelineConfigRequestView {
            device_id: self.device_id,
            client_id: self.client_id,
            action: self.action,
            dev_init_mode: self.dev_init_mode,
            base_path: self.base_path@,
            config: self.config@.map_values(|c: ForwardingPipelineConfig| c@),
        }
    }
}

/// A list of digest records of one learn filter.
#[derive(Debug, Clone, PartialEq, Eq)]
pub struct DigestList {
    pub digest_id: u32,
    pub list_id: u32,
    pub data: Vec<TableData>,
    pub target: Option<TargetDevice>,
}

pub struct DigestListView {
    pub digest_id: u32,
    pub list_id: u32,
    pub data: Seq<TableDataView>,
    pub target: Option<TargetDevice>,
}

impl View for DigestList {
    type V = DigestListView;

    open spec fn view(&self) -> DigestListView {
        DigestListView {
            digest_id: self.digest_id,
            list_id: self.list_id,
            data: self.data@.map_values(|d: TableData| d@),
            target: self.target,
        }
    }
}

/// What the switch sends on the notification stream.
#[derive(Debug, Clone, PartialEq, Eq)]
pub enum StreamMessageResponse {
    Subscribe(Subscribe),
    Digest(DigestList),
    IdleTimeoutNotification,
    PortStatusChangeNotification,
    SetForwardingPipelineConfigResponse,
}

pub enum StreamMessageResponseView {
    Subscribe(Subscribe),
    Digest(DigestListView),
    IdleTimeoutNotification,
    PortStatusChangeNotification,
    SetForwardingPipelineConfigResponse,
}

impl View for StreamMessageResponse {
    type V = StreamMessageResponseView;

    open spec fn view(&self) -> StreamMessageResponseView {
        match self {
            StreamMessageResponse::Subscribe(s) => StreamMessageResponseView::Subscribe(*s),
            StreamMessageResponse::Digest(d) => StreamMessageResponseView::Digest(d@),
            StreamMessageResponse::IdleTimeoutNotification => StreamMessageResponseView::IdleTimeoutNotification,
            StreamMessageResponse::PortStatusChangeNotification =>
                StreamMessageResponseView::PortStatusChangeNotification,
            StreamMessageResponse::SetForwardingPipelineConfigResponse =>
                StreamMessageResponseView::SetForwardingPipelineConfigResponse,
        }
    }
}

} // verus!
