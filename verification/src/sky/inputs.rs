//! What the tools take.

use vstd::prelude::*;
use crate::json;
use crate::json::JsonValue;
use crate::json::JsonView;
use crate::json::Scalar;
use crate::json::ScalarView;

verus! {

/// A text, or null.
pub open spec fn text_or_null(value: Option<String>) -> ScalarView {
    match value {
        Some(value) => ScalarView::Text(value@),
        None => ScalarView::Null,
    }
}

/// A truth value, or null.
pub open spec fn bool_or_null(value: Option<bool>) -> ScalarView {
    match value {
        Some(value) => ScalarView::Bool(value),
        None => ScalarView::Null,
    }
}

/// An integer, or null.
pub open spec fn integer_or_null(value: Option<i64>) -> ScalarView {
    match value {
        Some(value) => ScalarView::Integer(value as int),
        None => ScalarView::Null,
    }
}

/// A number, or null.
pub open spec fn number_or_null(value: Option<serde_json::Number>) -> ScalarView {
    match value {
        Some(value) => ScalarView::Number(value),
        None => ScalarView::Null,
    }
}

fn text_scalar(value: &Option<String>) -> (r: Scalar)
    ensures
        r@ == text_or_null(*value),
{
    match value {
        Some(value) => Scalar::Text(value.clone()),
        None => Scalar::Null,
    }
}

fn bool_scalar(value: Option<bool>) -> (r: Scalar)
    ensures
        r@ == bool_or_null(value),
{
    match value {
        Some(value) => Scalar::Bool(value),
        None => Scalar::Null,
    }
}

fn integer_scalar(value: Option<i64>) -> (r: Scalar)
    ensures
        r@ == integer_or_null(value),
{
    match value {
        Some(value) => Scalar::Integer(value),
        None => Scalar::Null,
    }
}

fn number_scalar(value: &Option<serde_json::Number>) -> (r: Scalar)
    ensures
        r@ == number_or_null(*value),
{
    match value {
        Some(value) => Scalar::Number(value.clone()),
        None => Scalar::Null,
    }
}

/// Input of a tool as the session keeps it.
#[derive(Debug, Clone, PartialEq, Eq)]
pub enum ToolInput {
    Dynamic(JsonValue),
}

/// The JSON value that an input is kept as.
pub open spec fn dynamic_view(input: ToolInput) -> JsonView {
    match input {
        ToolInput::Dynamic(value) => value@,
    }
}

/// Input of a tool.
pub trait SkyInput {
    /// Each field under its name; what is not set is null.
    spec fn fields(&self) -> Seq<(Seq<char>, ScalarView)>;

    /// The arguments that the process is sent; what is not set is null.
    spec fn arguments(&self) -> Seq<(Seq<char>, ScalarView)>;

    /// Each field under its name.
    fn to_fields(&self) -> (r: Vec<(String, Scalar)>)
        ensures
            json::members_view(r@) == self.fields(),
    ;

    /// The arguments that the process is sent.
    fn to_arguments(&self) -> (r: Vec<(String, Scalar)>)
        ensures
            json::members_view(r@) == self.arguments(),
    ;

    /// No argument has a name that is reserved.
    proof fn lemma_plain_names(&self)
        ensures
            json::names_are_plain(self.arguments()),
    ;
}

/// List local apps.
#[derive(Debug, Clone, PartialEq, Eq)]
pub struct ListAppsInput {}

impl SkyInput for ListAppsInput {
    open spec fn fields(&self) -> Seq<(Seq<char>, ScalarView)> {
        seq![]
    }

    open spec fn arguments(&self) -> Seq<(Seq<char>, ScalarView)> {
        self.fields()
    }

    fn to_fields(&self) -> (r: Vec<(String, Scalar)>) {
        let members: Vec<(String, Scalar)> = Vec::new();
        proof {
            assert(json::members_view(members@) =~= self.fields());
        }
        members
    }

    fn to_arguments(&self) -> (r: Vec<(String, Scalar)>) {
        self.to_fields()
    }

    proof fn lemma_plain_names(&self) {
    }
}

impl From<ListAppsInput> for ToolInput {
    fn from(value: ListAppsInput) -> (r: Self)
        ensures
            dynamic_view(r) == JsonView::Object(value.fields()),
    {
        ToolInput::Dynamic(JsonValue::Object(value.to_fields()))
    }
}

impl vstd::std_specs::convert::FromSpecImpl<ListAppsInput> for ToolInput {
    open spec fn obeys_from_spec() -> bool {
        false
    }

    open spec fn from_spec(value: ListAppsInput) -> ToolInput {
        arbitrary()
    }
}

/// Capture the state of an app.
#[derive(Debug, Clone, PartialEq, Eq)]
pub struct GetAppStateInput {
    /// App display name, `.app` path, or bundle id from `list_apps`.
    pub app: String,
    /// Return a full accessibility tree instead of a diff.
    pub disable_diff: Option<bool>,
}

impl SkyInput for GetAppStateInput {
    open spec fn fields(&self) -> Seq<(Seq<char>, ScalarView)> {
        seq![
            ("app"@, ScalarView::Text(self.app@)),
            ("disable_diff"@, bool_or_null(self.disable_diff)),
        ]
    }

    open spec fn arguments(&self) -> Seq<(Seq<char>, ScalarView)> {
        seq![
            ("app"@, ScalarView::Text(self.app@)),
            ("disableDiff"@, bool_or_null(self.disable_diff)),
        ]
    }

    fn to_fields(&self) -> (r: Vec<(String, Scalar)>) {
        let mut members: Vec<(String, Scalar)> = Vec::new();
        json::push_member(&mut members, "app", Scalar::Text(self.app.clone()));
        json::push_member(&mut members, "disable_diff", bool_scalar(self.disable_diff));
        proof {
            assert(json::members_view(members@) =~= self.fields());
        }
        members
    }

    fn to_arguments(&self) -> (r: Vec<(String, Scalar)>) {
        let mut members: Vec<(String, Scalar)> = Vec::new();
        json::push_member(&mut members, "app", Scalar::Text(self.app.clone()));
        json::push_member(&mut members, "disableDiff", bool_scalar(self.disable_diff));
        proof {
            assert(json::members_view(members@) =~= self.arguments());
        }
        members
    }

    proof fn lemma_plain_names(&self) {
        reveal_strlit("app");
        reveal_strlit("disableDiff");
        json::lemma_short_names_are_plain(self.arguments());
    }
}

impl From<GetAppStateInput> for ToolInput {
    fn from(value: GetAppStateInput) -> (r: Self)
        ensures
            dynamic_view(r) == JsonView::Object(value.fields()),
    {
        ToolInput::Dynamic(JsonValue::Object(value.to_fields()))
    }
}

impl vstd::std_specs::convert::FromSpecImpl<GetAppStateInput> for ToolInput {
    open spec fn obeys_from_spec() -> bool {
        false
    }

    open spec fn from_spec(value: GetAppStateInput) -> ToolInput {
        arbitrary()
    }
}

/// Click in an app.
#[derive(Debug, Clone, PartialEq, Eq)]
pub struct ClickInput {
    pub app: String,
    pub element_index: Option<i64>,
    pub x: Option<serde_json::Number>,
    pub y: Option<serde_json::Number>,
    pub mouse_button: Option<String>,
    pub click_count: Option<i64>,
}

impl SkyInput for ClickInput {
    open spec fn fields(&self) -> Seq<(Seq<char>, ScalarView)> {
        seq![
            ("app"@, ScalarView::Text(self.app@)),
            ("element_index"@, integer_or_null(self.element_index)),
            ("x"@, number_or_null(self.x)),
            ("y"@, number_or_null(self.y)),
            ("mouse_button"@, text_or_null(self.mouse_button)),
            ("click_count"@, integer_or_null(self.click_count)),
        ]
    }

    open spec fn arguments(&self) -> Seq<(Seq<char>, ScalarView)> {
        self.fields()
    }

    fn to_fields(&self) -> (r: Vec<(String, Scalar)>) {
        let mut members: Vec<(String, Scalar)> = Vec::new();
        json::push_member(&mut members, "app", Scalar::Text(self.app.clone()));
        json::push_member(&mut members, "element_index", integer_scalar(self.element_index));
        json::push_member(&mut members, "x", number_scalar(&self.x));
        json::push_member(&mut members, "y", number_scalar(&self.y));
        json::push_member(&mut members, "mouse_button", text_scalar(&self.mouse_button));
        json::push_member(&mut members, "click_count", integer_scalar(self.click_count));
        proof {
            assert(json::members_view(members@) =~= self.fields());
        }
        members
    }

    fn to_arguments(&self) -> (r: Vec<(String, Scalar)>) {
        self.to_fields()
    }

    proof fn lemma_plain_names(&self) {
        reveal_strlit("app");
        reveal_strlit("element_index");
        reveal_strlit("x");
        reveal_strlit("y");
        reveal_strlit("mouse_button");
        reveal_strlit("click_count");
        json::lemma_short_names_are_plain(self.arguments());
    }
}

impl From<ClickInput> for ToolInput {
    fn from(value: ClickInput) -> (r: Self)
        ensures
            dynamic_view(r) == JsonView::Object(value.fields()),
    {
        ToolInput::Dynamic(JsonValue::Object(value.to_fields()))
    }
}

impl vstd::std_specs::convert::FromSpecImpl<ClickInput> for ToolInput {
    open spec fn obeys_from_spec() -> bool {
        false
    }

    open spec fn from_spec(value: ClickInput) -> ToolInput {
        arbitrary()
    }
}

/// Drag in an app; a coordinate that is no finite number is absent.
#[derive(Debug, Clone, PartialEq, Eq)]
pub struct DragInput {
    pub app: String,
    pub from_x: Option<serde_json::Number>,
    pub from_y: Option<serde_json::Number>,
    pub to_x: Option<serde_json::Number>,
    pub to_y: Option<serde_json::Number>,
}

impl SkyInput for DragInput {
    open spec fn fields(&self) -> Seq<(Seq<char>, ScalarView)> {
        seq![
            ("app"@, ScalarView::Text(self.app@)),
            ("from_x"@, number_or_null(self.from_x)),
            ("from_y"@, number_or_null(self.from_y)),
            ("to_x"@, number_or_null(self.to_x)),
            ("to_y"@, number_or_null(self.to_y)),
        ]
    }

    open spec fn arguments(&self) -> Seq<(Seq<char>, ScalarView)> {
        self.fields()
    }

    fn to_fields(&self) -> (r: Vec<(String, Scalar)>) {
        let mut members: Vec<(String, Scalar)> = Vec::new();
        json::push_member(&mut members, "app", Scalar::Text(self.app.clone()));
        json::push_member(&mut members, "from_x", number_scalar(&self.from_x));
        json::push_member(&mut members, "from_y", number_scalar(&self.from_y));
        json::push_member(&mut members, "to_x", number_scalar(&self.to_x));
        json::push_member(&mut members, "to_y", number_scalar(&self.to_y));
        proof {
            assert(json::members_view(members@) =~= self.fields());
        }
        members
    }

    fn to_arguments(&self) -> (r: Vec<(String, Scalar)>) {
        self.to_fields()
    }

    proof fn lemma_plain_names(&self) {
        reveal_strlit("app");
        reveal_strlit("from_x");
        reveal_strlit("from_y");
        reveal_strlit("to_x");
        reveal_strlit("to_y");
        json::lemma_short_names_are_plain(self.arguments());
    }
}

impl From<DragInput> for ToolInput {
    fn from(value: DragInput) -> (r: Self)
        ensures
            dynamic_view(r) == JsonView::Object(value.fields()),
    {
        ToolInput::Dynamic(JsonValue::Object(value.to_fields()))
    }
}

impl vstd::std_specs::convert::FromSpecImpl<DragInput> for ToolInput {
    open spec fn obeys_from_spec() -> bool {
        false
    }

    open spec fn from_spec(value: DragInput) -> ToolInput {
        arbitrary()
    }
}

/// Invoke a secondary action of an element.
#[derive(Debug, Clone, PartialEq, Eq)]
pub struct PerformSecondaryActionInput {
    pub app: String,
    pub element_index: i64,
    pub action: String,
}

impl SkyInput for PerformSecondaryActionInput {
    open spec fn fields(&self) -> Seq<(Seq<char>, ScalarView)> {
        seq![
            ("app"@, ScalarView::Text(self.app@)),
            ("element_index"@, ScalarView::Integer(self.element_index as int)),
            ("action"@, ScalarView::Text(self.action@)),
        ]
    }

    open spec fn arguments(&self) -> Seq<(Seq<char>, ScalarView)> {
        self.fields()
    }

    fn to_fields(&self) -> (r: Vec<(String, Scalar)>) {
        let mut members: Vec<(String, Scalar)> = Vec::new();
        json::push_member(&mut members, "app", Scalar::Text(self.app.clone()));
        json::push_member(&mut members, "element_index", Scalar::Integer(self.element_index));
        json::push_member(&mut members, "action", Scalar::Text(self.action.clone()));
        proof {
            assert(json::members_view(members@) =~= self.fields());
        }
        members
    }

    fn to_arguments(&self) -> (r: Vec<(String, Scalar)>) {
        self.to_fields()
    }

    proof fn lemma_plain_names(&self) {
        reveal_strlit("app");
        reveal_strlit("element_index");
        reveal_strlit("action");
        json::lemma_short_names_are_plain(self.arguments());
    }
}

impl From<PerformSecondaryActionInput> for ToolInput {
    fn from(value: PerformSecondaryActionInput) -> (r: Self)
        ensures
            dynamic_view(r) == JsonView::Object(value.fields()),
    {
        ToolInput::Dynamic(JsonValue::Object(value.to_fields()))
    }
}

impl vstd::std_specs::convert::FromSpecImpl<PerformSecondaryActionInput> for ToolInput {
    open spec fn obeys_from_spec() -> bool {
        false
    }

    open spec fn from_spec(value: PerformSecondaryActionInput) -> ToolInput {
        arbitrary()
    }
}

/// Press a key or a chord.
#[derive(Debug, Clone, PartialEq, Eq)]
pub struct PressKeyInput {
    pub app: String,
    pub key: String,
}

impl SkyInput for PressKeyInput {
    open spec fn fields(&self) -> Seq<(Seq<char>, ScalarView)> {
        seq![
            ("app"@, ScalarView::Text(self.app@)),
            ("key"@, ScalarView::Text(self.key@)),
        ]
    }

    open spec fn arguments(&self) -> Seq<(Seq<char>, ScalarView)> {
        self.fields()
    }

    fn to_fields(&self) -> (r: Vec<(String, Scalar)>) {
        let mut members: Vec<(String, Scalar)> = Vec::new();
        json::push_member(&mut members, "app", Scalar::Text(self.app.clone()));
        json::push_member(&mut members, "key", Scalar::Text(self.key.clone()));
        proof {
            assert(json::members_view(members@) =~= self.fields());
        }
        members
    }

    fn to_arguments(&self) -> (r: Vec<(String, Scalar)>) {
        self.to_fields()
    }

    proof fn lemma_plain_names(&self) {
        reveal_strlit("app");
        reveal_strlit("key");
        json::lemma_short_names_are_plain(self.arguments());
    }
}

impl From<PressKeyInput> for ToolInput {
    fn from(value: PressKeyInput) -> (r: Self)
        ensures
            dynamic_view(r) == JsonView::Object(value.fields()),
    {
        ToolInput::Dynamic(JsonValue::Object(value.to_fields()))
    }
}

impl vstd::std_specs::convert::FromSpecImpl<PressKeyInput> for ToolInput {
    open spec fn obeys_from_spec() -> bool {
        false
    }

    open spec fn from_spec(value: PressKeyInput) -> ToolInput {
        arbitrary()
    }
}

/// Scroll an element.
#[derive(Debug, Clone, PartialEq, Eq)]
pub struct ScrollInput {
    pub app: String,
    pub element_index: i64,
    pub direction: String,
    pub pages: Option<serde_json::Number>,
}

impl SkyInput for ScrollInput {
    open spec fn fields(&self) -> Seq<(Seq<char>, ScalarView)> {
        seq![
            ("app"@, ScalarView::Text(self.app@)),
            ("element_index"@, ScalarView::Integer(self.element_index as int)),
            ("direction"@, ScalarView::Text(self.direction@)),
            ("pages"@, number_or_null(self.pages)),
        ]
    }

    open spec fn arguments(&self) -> Seq<(Seq<char>, ScalarView)> {
        self.fields()
    }

    fn to_fields(&self) -> (r: Vec<(String, Scalar)>) {
        let mut members: Vec<(String, Scalar)> = Vec::new();
        json::push_member(&mut members, "app", Scalar::Text(self.app.clone()));
        json::push_member(&mut members, "element_index", Scalar::Integer(self.element_index));
        json::push_member(&mut members, "direction", Scalar::Text(self.direction.clone()));
        json::push_member(&mut members, "pages", number_scalar(&self.pages));
        proof {
            assert(json::members_view(members@) =~= self.fields());
        }
        members
    }

    fn to_arguments(&self) -> (r: Vec<(String, Scalar)>) {
        self.to_fields()
    }

    proof fn lemma_plain_names(&self) {
        reveal_strlit("app");
        reveal_strlit("element_index");
        reveal_strlit("direction");
        reveal_strlit("pages");
        json::lemma_short_names_are_plain(self.arguments());
    }
}

impl From<ScrollInput> for ToolInput {
    fn from(value: ScrollInput) -> (r: Self)
        ensures
            dynamic_view(r) == JsonView::Object(value.fields()),
    {
        ToolInput::Dynamic(JsonValue::Object(value.to_fields()))
    }
}

impl vstd::std_specs::convert::FromSpecImpl<ScrollInput> for ToolInput {
    open spec fn obeys_from_spec() -> bool {
        false
    }

    open spec fn from_spec(value: ScrollInput) -> ToolInput {
        arbitrary()
    }
}

/// Select text in an element.
#[derive(Debug, Clone, PartialEq, Eq)]
pub struct SelectTextInput {
    pub app: String,
    pub element_index: i64,
    pub text: String,
    pub prefix: Option<String>,
    pub suffix: Option<String>,
    pub selection_type: Option<String>,
}

impl SkyInput for SelectTextInput {
    open spec fn fields(&self) -> Seq<(Seq<char>, ScalarView)> {
        seq![
            ("app"@, ScalarView::Text(self.app@)),
            ("element_index"@, ScalarView::Integer(self.element_index as int)),
            ("text"@, ScalarView::Text(self.text@)),
            ("prefix"@, text_or_null(self.prefix)),
            ("suffix"@, text_or_null(self.suffix)),
            ("selection_type"@, text_or_null(self.selection_type)),
        ]
    }

    open spec fn arguments(&self) -> Seq<(Seq<char>, ScalarView)> {
        self.fields()
    }

    fn to_fields(&self) -> (r: Vec<(String, Scalar)>) {
        let mut members: Vec<(String, Scalar)> = Vec::new();
        json::push_member(&mut members, "app", Scalar::Text(self.app.clone()));
        json::push_member(&mut members, "element_index", Scalar::Integer(self.element_index));
        json::push_member(&mut members, "text", Scalar::Text(self.text.clone()));
        json::push_member(&mut members, "prefix", text_scalar(&self.prefix));
        json::push_member(&mut members, "suffix", text_scalar(&self.suffix));
        json::push_member(&mut members, "selection_type", text_scalar(&self.selection_type));
        proof {
            assert(json::members_view(members@) =~= self.fields());
        }
        members
    }

    fn to_arguments(&self) -> (r: Vec<(String, Scalar)>) {
        self.to_fields()
    }

    proof fn lemma_plain_names(&self) {
        reveal_strlit("app");
        reveal_strlit("element_index");
        reveal_strlit("text");
        reveal_strlit("prefix");
        reveal_strlit("suffix");
        reveal_strlit("selection_type");
        json::lemma_short_names_are_plain(self.arguments());
    }
}

impl From<SelectTextInput> for ToolInput {
    fn from(value: SelectTextInput) -> (r: Self)
        ensures
            dynamic_view(r) == JsonView::Object(value.fields()),
    {
        ToolInput::Dynamic(JsonValue::Object(value.to_fields()))
    }
}

impl vstd::std_specs::convert::FromSpecImpl<SelectTextInput> for ToolInput {
    open spec fn obeys_from_spec() -> bool {
        false
    }

    open spec fn from_spec(value: SelectTextInput) -> ToolInput {
        arbitrary()
    }
}

/// Replace the value of an element.
#[derive(Debug, Clone, PartialEq, Eq)]
pub struct SetValueInput {
    pub app: String,
    pub element_index: i64,
    pub value: String,
}

impl SkyInput for SetValueInput {
    open spec fn fields(&self) -> Seq<(Seq<char>, ScalarView)> {
        seq![
            ("app"@, ScalarView::Text(self.app@)),
            ("element_index"@, ScalarView::Integer(self.element_index as int)),
            ("value"@, ScalarView::Text(self.value@)),
        ]
    }

    open spec fn arguments(&self) -> Seq<(Seq<char>, ScalarView)> {
        self.fields()
    }

    fn to_fields(&self) -> (r: Vec<(String, Scalar)>) {
        let mut members: Vec<(String, Scalar)> = Vec::new();
        json::push_member(&mut members, "app", Scalar::Text(self.app.clone()));
        json::push_member(&mut members, "element_index", Scalar::Integer(self.element_index));
        json::push_member(&mut members, "value", Scalar::Text(self.value.clone()));
        proof {
            assert(json::members_view(members@) =~= self.fields());
        }
        members
    }

    fn to_arguments(&self) -> (r: Vec<(String, Scalar)>) {
        self.to_fields()
    }

    proof fn lemma_plain_names(&self) {
        reveal_strlit("app");
        reveal_strlit("element_index");
        reveal_strlit("value");
        json::lemma_short_names_are_plain(self.arguments());
    }
}

impl From<SetValueInput> for ToolInput {
    fn from(value: SetValueInput) -> (r: Self)
        ensures
            dynamic_view(r) == JsonView::Object(value.fields()),
    {
        ToolInput::Dynamic(JsonValue::Object(value.to_fields()))
    }
}

impl vstd::std_specs::convert::FromSpecImpl<SetValueInput> for ToolInput {
    open spec fn obeys_from_spec() -> bool {
        false
    }

    open spec fn from_spec(value: SetValueInput) -> ToolInput {
        arbitrary()
    }
}

/// Type text into an app.
#[derive(Debug, Clone, PartialEq, Eq)]
pub struct TypeTextInput {
    pub app: String,
    pub text: String,
}

impl SkyInput for TypeTextInput {
    open spec fn fields(&self) -> Seq<(Seq<char>, ScalarView)> {
        seq![
            ("app"@, ScalarView::Text(self.app@)),
            ("text"@, ScalarView::Text(self.text@)),
        ]
    }

    open spec fn arguments(&self) -> Seq<(Seq<char>, ScalarView)> {
        self.fields()
    }

    fn to_fields(&self) -> (r: Vec<(String, Scalar)>) {
        let mut members: Vec<(String, Scalar)> = Vec::new();
        json::push_member(&mut members, "app", Scalar::Text(self.app.clone()));
        json::push_member(&mut members, "text", Scalar::Text(self.text.clone()));
        proof {
            assert(json::members_view(members@) =~= self.fields());
        }
        members
    }

    fn to_arguments(&self) -> (r: Vec<(String, Scalar)>) {
        self.to_fields()
    }

    proof fn lemma_plain_names(&self) {
        reveal_strlit("app");
        reveal_strlit("text");
        json::lemma_short_names_are_plain(self.arguments());
    }
}

impl From<TypeTextInput> for ToolInput {
    fn from(value: TypeTextInput) -> (r: Self)
        ensures
            dynamic_view(r) == JsonView::Object(value.fields()),
    {
        ToolInput::Dynamic(JsonValue::Object(value.to_fields()))
    }
}

impl vstd::std_specs::convert::FromSpecImpl<TypeTextInput> for ToolInput {
    open spec fn obeys_from_spec() -> bool {
        false
    }

    open spec fn from_spec(value: TypeTextInput) -> ToolInput {
        arbitrary()
    }
}

/// List browsers.
#[derive(Debug, Clone, PartialEq, Eq)]
pub struct BrowsersListInput {}

impl SkyInput for BrowsersListInput {
    open spec fn fields(&self) -> Seq<(Seq<char>, ScalarView)> {
        seq![]
    }

    open spec fn arguments(&self) -> Seq<(Seq<char>, ScalarView)> {
        self.fields()
    }

    fn to_fields(&self) -> (r: Vec<(String, Scalar)>) {
        let members: Vec<(String, Scalar)> = Vec::new();
        proof {
            assert(json::members_view(members@) =~= self.fields());
        }
        members
    }

    fn to_arguments(&self) -> (r: Vec<(String, Scalar)>) {
        self.to_fields()
    }

    proof fn lemma_plain_names(&self) {
    }
}

impl From<BrowsersListInput> for ToolInput {
    fn from(value: BrowsersListInput) -> (r: Self)
        ensures
            dynamic_view(r) == JsonView::Object(value.fields()),
    {
        ToolInput::Dynamic(JsonValue::Object(value.to_fields()))
    }
}

impl vstd::std_specs::convert::FromSpecImpl<BrowsersListInput> for ToolInput {
    open spec fn obeys_from_spec() -> bool {
        false
    }

    open spec fn from_spec(value: BrowsersListInput) -> ToolInput {
        arbitrary()
    }
}

/// List open pages.
#[derive(Debug, Clone, PartialEq, Eq)]
pub struct TabsListInput {}

impl SkyInput for TabsListInput {
    open spec fn fields(&self) -> Seq<(Seq<char>, ScalarView)> {
        seq![]
    }

    open spec fn arguments(&self) -> Seq<(Seq<char>, ScalarView)> {
        self.fields()
    }

    fn to_fields(&self) -> (r: Vec<(String, Scalar)>) {
        let members: Vec<(String, Scalar)> = Vec::new();
        proof {
            assert(json::members_view(members@) =~= self.fields());
        }
        members
    }

    fn to_arguments(&self) -> (r: Vec<(String, Scalar)>) {
        self.to_fields()
    }

    proof fn lemma_plain_names(&self) {
    }
}

impl From<TabsListInput> for ToolInput {
    fn from(value: TabsListInput) -> (r: Self)
        ensures
            dynamic_view(r) == JsonView::Object(value.fields()),
    {
        ToolInput::Dynamic(JsonValue::Object(value.to_fields()))
    }
}

impl vstd::std_specs::convert::FromSpecImpl<TabsListInput> for ToolInput {
    open spec fn obeys_from_spec() -> bool {
        false
    }

    open spec fn from_spec(value: TabsListInput) -> ToolInput {
        arbitrary()
    }
}

/// Navigate a page.
#[derive(Debug, Clone, PartialEq, Eq)]
pub struct PageGotoInput {
    pub url: String,
    pub new_tab: Option<bool>,
}

impl SkyInput for PageGotoInput {
    open spec fn fields(&self) -> Seq<(Seq<char>, ScalarView)> {
        seq![
            ("url"@, ScalarView::Text(self.url@)),
            ("new_tab"@, bool_or_null(self.new_tab)),
        ]
    }

    open spec fn arguments(&self) -> Seq<(Seq<char>, ScalarView)> {
        self.fields()
    }

    fn to_fields(&self) -> (r: Vec<(String, Scalar)>) {
        let mut members: Vec<(String, Scalar)> = Vec::new();
        json::push_member(&mut members, "url", Scalar::Text(self.url.clone()));
        json::push_member(&mut members, "new_tab", bool_scalar(self.new_tab));
        proof {
            assert(json::members_view(members@) =~= self.fields());
        }
        members
    }

    fn to_arguments(&self) -> (r: Vec<(String, Scalar)>) {
        self.to_fields()
    }

    proof fn lemma_plain_names(&self) {
        reveal_strlit("url");
        reveal_strlit("new_tab");
        json::lemma_short_names_are_plain(self.arguments());
    }
}

impl From<PageGotoInput> for ToolInput {
    fn from(value: PageGotoInput) -> (r: Self)
        ensures
            dynamic_view(r) == JsonView::Object(value.fields()),
    {
        ToolInput::Dynamic(JsonValue::Object(value.to_fields()))
    }
}

impl vstd::std_specs::convert::FromSpecImpl<PageGotoInput> for ToolInput {
    open spec fn obeys_from_spec() -> bool {
        false
    }

    open spec fn from_spec(value: PageGotoInput) -> ToolInput {
        arbitrary()
    }
}

/// Take a screenshot of the page.
#[derive(Debug, Clone, PartialEq, Eq)]
pub struct PageScreenshotInput {}

impl SkyInput for PageScreenshotInput {
    open spec fn fields(&self) -> Seq<(Seq<char>, ScalarView)> {
        seq![]
    }

    open spec fn arguments(&self) -> Seq<(Seq<char>, ScalarView)> {
        self.fields()
    }

    fn to_fields(&self) -> (r: Vec<(String, Scalar)>) {
        let members: Vec<(String, Scalar)> = Vec::new();
        proof {
            assert(json::members_view(members@) =~= self.fields());
        }
        members
    }

    fn to_arguments(&self) -> (r: Vec<(String, Scalar)>) {
        self.to_fields()
    }

    proof fn lemma_plain_names(&self) {
    }
}

impl From<PageScreenshotInput> for ToolInput {
    fn from(value: PageScreenshotInput) -> (r: Self)
        ensures
            dynamic_view(r) == JsonView::Object(value.fields()),
    {
        ToolInput::Dynamic(JsonValue::Object(value.to_fields()))
    }
}

impl vstd::std_specs::convert::FromSpecImpl<PageScreenshotInput> for ToolInput {
    open spec fn obeys_from_spec() -> bool {
        false
    }

    open spec fn from_spec(value: PageScreenshotInput) -> ToolInput {
        arbitrary()
    }
}

/// Click on the page.
#[derive(Debug, Clone, PartialEq, Eq)]
pub struct PageClickInput {
    pub selector: Option<String>,
    pub x: Option<serde_json::Number>,
    pub y: Option<serde_json::Number>,
}

impl SkyInput for PageClickInput {
    open spec fn fields(&self) -> Seq<(Seq<char>, ScalarView)> {
        seq![
            ("selector"@, text_or_null(self.selector)),
            ("x"@, number_or_null(self.x)),
            ("y"@, number_or_null(self.y)),
        ]
    }

    open spec fn arguments(&self) -> Seq<(Seq<char>, ScalarView)> {
        self.fields()
    }

    fn to_fields(&self) -> (r: Vec<(String, Scalar)>) {
        let mut members: Vec<(String, Scalar)> = Vec::new();
        json::push_member(&mut members, "selector", text_scalar(&self.selector));
        json::push_member(&mut members, "x", number_scalar(&self.x));
        json::push_member(&mut members, "y", number_scalar(&self.y));
        proof {
            assert(json::members_view(members@) =~= self.fields());
        }
        members
    }

    fn to_arguments(&self) -> (r: Vec<(String, Scalar)>) {
        self.to_fields()
    }

    proof fn lemma_plain_names(&self) {
        reveal_strlit("selector");
        reveal_strlit("x");
        reveal_strlit("y");
        json::lemma_short_names_are_plain(self.arguments());
    }
}

impl From<PageClickInput> for ToolInput {
    fn from(value: PageClickInput) -> (r: Self)
        ensures
            dynamic_view(r) == JsonView::Object(value.fields()),
    {
        ToolInput::Dynamic(JsonValue::Object(value.to_fields()))
    }
}

impl vstd::std_specs::convert::FromSpecImpl<PageClickInput> for ToolInput {
    open spec fn obeys_from_spec() -> bool {
        false
    }

    open spec fn from_spec(value: PageClickInput) -> ToolInput {
        arbitrary()
    }
}

/// Type into the page.
#[derive(Debug, Clone, PartialEq, Eq)]
pub struct PageTypeInput {
    pub text: String,
    pub selector: Option<String>,
}

impl SkyInput for PageTypeInput {
    open spec fn fields(&self) -> Seq<(Seq<char>, ScalarView)> {
        seq![
            ("text"@, ScalarView::Text(self.text@)),
            ("selector"@, text_or_null(self.selector)),
        ]
    }

    open spec fn arguments(&self) -> Seq<(Seq<char>, ScalarView)> {
        self.fields()
    }

    fn to_fields(&self) -> (r: Vec<(String, Scalar)>) {
        let mut members: Vec<(String, Scalar)> = Vec::new();
        json::push_member(&mut members, "text", Scalar::Text(self.text.clone()));
        json::push_member(&mut members, "selector", text_scalar(&self.selector));
        proof {
            assert(json::members_view(members@) =~= self.fields());
        }
        members
    }

    fn to_arguments(&self) -> (r: Vec<(String, Scalar)>) {
        self.to_fields()
    }

    proof fn lemma_plain_names(&self) {
        reveal_strlit("text");
        reveal_strlit("selector");
        json::lemma_short_names_are_plain(self.arguments());
    }
}

impl From<PageTypeInput> for ToolInput {
    fn from(value: PageTypeInput) -> (r: Self)
        ensures
            dynamic_view(r) == JsonView::Object(value.fields()),
    {
        ToolInput::Dynamic(JsonValue::Object(value.to_fields()))
    }
}

impl vstd::std_specs::convert::FromSpecImpl<PageTypeInput> for ToolInput {
    open spec fn obeys_from_spec() -> bool {
        false
    }

    open spec fn from_spec(value: PageTypeInput) -> ToolInput {
        arbitrary()
    }
}

/// Read the page.
#[derive(Debug, Clone, PartialEq, Eq)]
pub struct PageContentInput {}

impl SkyInput for PageContentInput {
    open spec fn fields(&self) -> Seq<(Seq<char>, ScalarView)> {
        seq![]
    }

    open spec fn arguments(&self) -> Seq<(Seq<char>, ScalarView)> {
        self.fields()
    }

    fn to_fields(&self) -> (r: Vec<(String, Scalar)>) {
        let members: Vec<(String, Scalar)> = Vec::new();
        proof {
            assert(json::members_view(members@) =~= self.fields());
        }
        members
    }

    fn to_arguments(&self) -> (r: Vec<(String, Scalar)>) {
        self.to_fields()
    }

    proof fn lemma_plain_names(&self) {
    }
}

impl From<PageContentInput> for ToolInput {
    fn from(value: PageContentInput) -> (r: Self)
        ensures
            dynamic_view(r) == JsonView::Object(value.fields()),
    {
        ToolInput::Dynamic(JsonValue::Object(value.to_fields()))
    }
}

impl vstd::std_specs::convert::FromSpecImpl<PageContentInput> for ToolInput {
    open spec fn obeys_from_spec() -> bool {
        false
    }

    open spec fn from_spec(value: PageContentInput) -> ToolInput {
        arbitrary()
    }
}

/// Close the browser session.
#[derive(Debug, Clone, PartialEq, Eq)]
pub struct PageCloseInput {}

impl SkyInput for PageCloseInput {
    open spec fn fields(&self) -> Seq<(Seq<char>, ScalarView)> {
        seq![]
    }

    open spec fn arguments(&self) -> Seq<(Seq<char>, ScalarView)> {
        self.fields()
    }

    fn to_fields(&self) -> (r: Vec<(String, Scalar)>) {
        let members: Vec<(String, Scalar)> = Vec::new();
        proof {
            assert(json::members_view(members@) =~= self.fields());
        }
        members
    }

    fn to_arguments(&self) -> (r: Vec<(String, Scalar)>) {
        self.to_fields()
    }

    proof fn lemma_plain_names(&self) {
    }
}

impl From<PageCloseInput> for ToolInput {
    fn from(value: PageCloseInput) -> (r: Self)
        ensures
            dynamic_view(r) == JsonView::Object(value.fields()),
    {
        ToolInput::Dynamic(JsonValue::Object(value.to_fields()))
    }
}

impl vstd::std_specs::convert::FromSpecImpl<PageCloseInput> for ToolInput {
    open spec fn obeys_from_spec() -> bool {
        false
    }

    open spec fn from_spec(value: PageCloseInput) -> ToolInput {
        arbitrary()
    }
}

/// The `list_apps` tool takes nothing and is sent nothing.
pub proof fn law_list_apps_sends_what_is_set(input: ListAppsInput)
    ensures
        ({
            let sent = input.arguments();
            &&& input.fields() == sent
            &&& sent.len() == 0
        }),
{
}

/// The `get_app_state` tool is sent each field that is set, as it is; each other
/// is null. The session keeps them under the names of the fields.
pub proof fn law_get_app_state_sends_what_is_set(input: GetAppStateInput)
    ensures
        ({
            let sent = input.arguments();
            let kept = input.fields();
            &&& sent.len() == 2
            &&& sent[0] == ("app"@, ScalarView::Text(input.app@))
            &&& sent[1].0 == "disableDiff"@
            &&& input.disable_diff is Some ==> sent[1].1 == ScalarView::Bool(input.disable_diff->0)
            &&& input.disable_diff is None ==> sent[1].1 is Null
            &&& kept.len() == 2
            &&& kept[0] == ("app"@, ScalarView::Text(input.app@))
            &&& kept[1].0 == "disable_diff"@
            &&& input.disable_diff is Some ==> kept[1].1 == ScalarView::Bool(input.disable_diff->0)
            &&& input.disable_diff is None ==> kept[1].1 is Null
        }),
{
}

/// The `click` tool is sent each field that is set, as it is and
/// under its own name; each other is null.
pub proof fn law_click_sends_what_is_set(input: ClickInput)
    ensures
        ({
            let sent = input.arguments();
            &&& input.fields() == sent
            &&& sent.len() == 6
            &&& sent[0] == ("app"@, ScalarView::Text(input.app@))
            &&& sent[1].0 == "element_index"@
            &&& input.element_index is Some ==> sent[1].1 == ScalarView::Integer(input.element_index->0 as int)
            &&& input.element_index is None ==> sent[1].1 is Null
            &&& sent[2].0 == "x"@
            &&& input.x is Some ==> sent[2].1 == ScalarView::Number(input.x->0)
            &&& input.x is None ==> sent[2].1 is Null
            &&& sent[3].0 == "y"@
            &&& input.y is Some ==> sent[3].1 == ScalarView::Number(input.y->0)
            &&& input.y is None ==> sent[3].1 is Null
            &&& sent[4].0 == "mouse_button"@
            &&& input.mouse_button is Some ==> sent[4].1 == ScalarView::Text(input.mouse_button->0@)
            &&& input.mouse_button is None ==> sent[4].1 is Null
            &&& sent[5].0 == "click_count"@
            &&& input.click_count is Some ==> sent[5].1 == ScalarView::Integer(input.click_count->0 as int)
            &&& input.click_count is None ==> sent[5].1 is Null
        }),
{
}

/// The `drag` tool is sent each field that is set, as it is and
/// under its own name; each other is null.
pub proof fn law_drag_sends_what_is_set(input: DragInput)
    ensures
        ({
            let sent = input.arguments();
            &&& input.fields() == sent
            &&& sent.len() == 5
            &&& sent[0] == ("app"@, ScalarView::Text(input.app@))
            &&& sent[1].0 == "from_x"@
            &&& input.from_x is Some ==> sent[1].1 == ScalarView::Number(input.from_x->0)
            &&& input.from_x is None ==> sent[1].1 is Null
            &&& sent[2].0 == "from_y"@
            &&& input.from_y is Some ==> sent[2].1 == ScalarView::Number(input.from_y->0)
            &&& input.from_y is None ==> sent[2].1 is Null
            &&& sent[3].0 == "to_x"@
            &&& input.to_x is Some ==> sent[3].1 == ScalarView::Number(input.to_x->0)
            &&& input.to_x is None ==> sent[3].1 is Null
            &&& sent[4].0 == "to_y"@
            &&& input.to_y is Some ==> sent[4].1 == ScalarView::Number(input.to_y->0)
            &&& input.to_y is None ==> sent[4].1 is Null
        }),
{
}

/// The `perform_secondary_action` tool is sent each field that is set, as it is and
/// under its own name; each other is null.
pub proof fn law_perform_secondary_action_sends_what_is_set(input: PerformSecondaryActionInput)
    ensures
        ({
            let sent = input.arguments();
            &&& input.fields() == sent
            &&& sent.len() == 3
            &&& sent[0] == ("app"@, ScalarView::Text(input.app@))
            &&& sent[1] == ("element_index"@, ScalarView::Integer(input.element_index as int))
            &&& sent[2] == ("action"@, ScalarView::Text(input.action@))
        }),
{
}

/// The `press_key` tool is sent each field that is set, as it is and
/// under its own name; each other is null.
pub proof fn law_press_key_sends_what_is_set(input: PressKeyInput)
    ensures
        ({
            let sent = input.arguments();
            &&& input.fields() == sent
            &&& sent.len() == 2
            &&& sent[0] == ("app"@, ScalarView::Text(input.app@))
            &&& sent[1] == ("key"@, ScalarView::Text(input.key@))
        }),
{
}

/// The `scroll` tool is sent each field that is set, as it is and
/// under its own name; each other is null.
pub proof fn law_scroll_sends_what_is_set(input: ScrollInput)
    ensures
        ({
            let sent = input.arguments();
            &&& input.fields() == sent
            &&& sent.len() == 4
            &&& sent[0] == ("app"@, ScalarView::Text(input.app@))
            &&& sent[1] == ("element_index"@, ScalarView::Integer(input.element_index as int))
            &&& sent[2] == ("direction"@, ScalarView::Text(input.direction@))
            &&& sent[3].0 == "pages"@
            &&& input.pages is Some ==> sent[3].1 == ScalarView::Number(input.pages->0)
            &&& input.pages is None ==> sent[3].1 is Null
        }),
{
}

/// The `select_text` tool is sent each field that is set, as it is and
/// under its own name; each other is null.
pub proof fn law_select_text_sends_what_is_set(input: SelectTextInput)
    ensures
        ({
            let sent = input.arguments();
            &&& input.fields() == sent
            &&& sent.len() == 6
            &&& sent[0] == ("app"@, ScalarView::Text(input.app@))
            &&& sent[1] == ("element_index"@, ScalarView::Integer(input.element_index as int))
            &&& sent[2] == ("text"@, ScalarView::Text(input.text@))
            &&& sent[3].0 == "prefix"@
            &&& input.prefix is Some ==> sent[3].1 == ScalarView::Text(input.prefix->0@)
            &&& input.prefix is None ==> sent[3].1 is Null
            &&& sent[4].0 == "suffix"@
            &&& input.suffix is Some ==> sent[4].1 == ScalarView::Text(input.suffix->0@)
            &&& input.suffix is None ==> sent[4].1 is Null
            &&& sent[5].0 == "selection_type"@
            &&& input.selection_type is Some ==> sent[5].1 == ScalarView::Text(input.selection_type->0@)
            &&& input.selection_type is None ==> sent[5].1 is Null
        }),
{
}

/// The `set_value` tool is sent each field that is set, as it is and
/// under its own name; each other is null.
pub proof fn law_set_value_sends_what_is_set(input: SetValueInput)
    ensures
        ({
            let sent = input.arguments();
            &&& input.fields() == sent
            &&& sent.len() == 3
            &&& sent[0] == ("app"@, ScalarView::Text(input.app@))
            &&& sent[1] == ("element_index"@, ScalarView::Integer(input.element_index as int))
            &&& sent[2] == ("value"@, ScalarView::Text(input.value@))
        }),
{
}

/// The `type_text` tool is sent each field that is set, as it is and
/// under its own name; each other is null.
pub proof fn law_type_text_sends_what_is_set(input: TypeTextInput)
    ensures
        ({
            let sent = input.arguments();
            &&& input.fields() == sent
            &&& sent.len() == 2
            &&& sent[0] == ("app"@, ScalarView::Text(input.app@))
            &&& sent[1] == ("text"@, ScalarView::Text(input.text@))
        }),
{
}

/// The `browsers_list` tool takes nothing and is sent nothing.
pub proof fn law_browsers_list_sends_what_is_set(input: BrowsersListInput)
    ensures
        ({
            let sent = input.arguments();
            &&& input.fields() == sent
            &&& sent.len() == 0
        }),
{
}

/// The `tabs_list` tool takes nothing and is sent nothing.
pub proof fn law_tabs_list_sends_what_is_set(input: TabsListInput)
    ensures
        ({
            let sent = input.arguments();
            &&& input.fields() == sent
            &&& sent.len() == 0
        }),
{
}

/// The `page_goto` tool is sent each field that is set, as it is and
/// under its own name; each other is null.
pub proof fn law_page_goto_sends_what_is_set(input: PageGotoInput)
    ensures
        ({
            let sent = input.arguments();
            &&& input.fields() == sent
            &&& sent.len() == 2
            &&& sent[0] == ("url"@, ScalarView::Text(input.url@))
            &&& sent[1].0 == "new_tab"@
            &&& input.new_tab is Some ==> sent[1].1 == ScalarView::Bool(input.new_tab->0)
            &&& input.new_tab is None ==> sent[1].1 is Null
        }),
{
}

/// The `page_screenshot` tool takes nothing and is sent nothing.
pub proof fn law_page_screenshot_sends_what_is_set(input: PageScreenshotInput)
    ensures
        ({
            let sent = input.arguments();
            &&& input.fields() == sent
            &&& sent.len() == 0
        }),
{
}

/// The `page_click` tool is sent each field that is set, as it is and
/// under its own name; each other is null.
pub proof fn law_page_click_sends_what_is_set(input: PageClickInput)
    ensures
        ({
            let sent = input.arguments();
            &&& input.fields() == sent
            &&& sent.len() == 3
            &&& sent[0].0 == "selector"@
            &&& input.selector is Some ==> sent[0].1 == ScalarView::Text(input.selector->0@)
            &&& input.selector is None ==> sent[0].1 is Null
            &&& sent[1].0 == "x"@
            &&& input.x is Some ==> sent[1].1 == ScalarView::Number(input.x->0)
            &&& input.x is None ==> sent[1].1 is Null
            &&& sent[2].0 == "y"@
            &&& input.y is Some ==> sent[2].1 == ScalarView::Number(input.y->0)
            &&& input.y is None ==> sent[2].1 is Null
        }),
{
}

/// The `page_type` tool is sent each field that is set, as it is and
/// under its own name; each other is null.
pub proof fn law_page_type_sends_what_is_set(input: PageTypeInput)
    ensures
        ({
            let sent = input.arguments();
            &&& input.fields() == sent
            &&& sent.len() == 2
            &&& sent[0] == ("text"@, ScalarView::Text(input.text@))
            &&& sent[1].0 == "selector"@
            &&& input.selector is Some ==> sent[1].1 == ScalarView::Text(input.selector->0@)
            &&& input.selector is None ==> sent[1].1 is Null
        }),
{
}

/// The `page_content` tool takes nothing and is sent nothing.
pub proof fn law_page_content_sends_what_is_set(input: PageContentInput)
    ensures
        ({
            let sent = input.arguments();
            &&& input.fields() == sent
            &&& sent.len() == 0
        }),
{
}

/// The `page_close` tool takes nothing and is sent nothing.
pub proof fn law_page_close_sends_what_is_set(input: PageCloseInput)
    ensures
        ({
            let sent = input.arguments();
            &&& input.fields() == sent
            &&& sent.len() == 0
        }),
{
}

} // verus!
