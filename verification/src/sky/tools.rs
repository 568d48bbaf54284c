//! The tools: their names, what they are for, and the requests they make.

use vstd::prelude::*;
use crate::json;
use crate::json::JsonValue;
use crate::json::JsonView;
use crate::json::ScalarView;
use crate::sky::inputs::ListAppsInput;
use crate::sky::inputs::GetAppStateInput;
use crate::sky::inputs::ClickInput;
use crate::sky::inputs::DragInput;
use crate::sky::inputs::PerformSecondaryActionInput;
use crate::sky::inputs::PressKeyInput;
use crate::sky::inputs::ScrollInput;
use crate::sky::inputs::SelectTextInput;
use crate::sky::inputs::SetValueInput;
use crate::sky::inputs::TypeTextInput;
use crate::sky::inputs::BrowsersListInput;
use crate::sky::inputs::TabsListInput;
use crate::sky::inputs::PageGotoInput;
use crate::sky::inputs::PageScreenshotInput;
use crate::sky::inputs::PageClickInput;
use crate::sky::inputs::PageTypeInput;
use crate::sky::inputs::PageContentInput;
use crate::sky::inputs::PageCloseInput;
use crate::sky::inputs::SkyInput;

verus! {

/// A tool.
#[derive(Debug, Clone, Copy, PartialEq, Eq, Structural)]
pub enum ToolName {
    ListApps,
    GetAppState,
    Click,
    Drag,
    PerformSecondaryAction,
    PressKey,
    Scroll,
    SelectText,
    SetValue,
    TypeText,
    BrowsersList,
    TabsList,
    PageGoto,
    PageScreenshot,
    PageClick,
    PageType,
    PageContent,
    PageClose,
}

/// What a tool does to what it works on.
#[derive(Debug, Clone, Copy, PartialEq, Eq, Structural)]
pub enum ToolKind {
    Read,
    List,
    Other,
}

/// What a caller has to be allowed to do.
#[derive(Debug, Clone, Copy, PartialEq, Eq, Structural)]
pub enum ToolScope {
    Read,
    Write,
}

/// Where a tool is offered.
#[derive(Debug, Clone, Copy, PartialEq, Eq, Structural)]
pub enum ToolNamespace {
    GrokBuild,
}

/// What the session may assume of a tool.
#[derive(Debug, Clone, Copy, PartialEq, Eq, Structural)]
pub struct ToolCapabilities {
    pub is_read_only: bool,
    pub tool_scope: Option<ToolScope>,
}

/// The id of a tool, which is also the method that it calls.
pub open spec fn tool_id(tool: ToolName) -> &'static str {
    match tool {
        ToolName::ListApps => "list_apps",
        ToolName::GetAppState => "get_app_state",
        ToolName::Click => "click",
        ToolName::Drag => "drag",
        ToolName::PerformSecondaryAction => "perform_secondary_action",
        ToolName::PressKey => "press_key",
        ToolName::Scroll => "scroll",
        ToolName::SelectText => "select_text",
        ToolName::SetValue => "set_value",
        ToolName::TypeText => "type_text",
        ToolName::BrowsersList => "browsers_list",
        ToolName::TabsList => "tabs_list",
        ToolName::PageGoto => "page_goto",
        ToolName::PageScreenshot => "page_screenshot",
        ToolName::PageClick => "page_click",
        ToolName::PageType => "page_type",
        ToolName::PageContent => "page_content",
        ToolName::PageClose => "page_close",
    }
}

/// What a tool is for.
pub open spec fn tool_description(tool: ToolName) -> &'static str {
    match tool {
        ToolName::ListApps => "List local macOS apps targetable by Sky Computer Use (running/recent, canonical ids). Does not launch ChatGPT.",
        ToolName::GetAppState => "Capture an app window screenshot and indexed accessibility text. Call before acting and after each action. Do not reuse stale element indexes. Does not launch ChatGPT.",
        ToolName::Click => "Click an indexed element from the latest get_app_state tree, or a screenshot coordinate.",
        ToolName::Drag => "Drag between two app-window screenshot-relative coordinates.",
        ToolName::PerformSecondaryAction => "Invoke a secondary accessibility action explicitly exposed for an indexed element.",
        ToolName::PressKey => "Press a key or + separated X keysym-style chord (Return, Tab, Control_L+a, Super_L+d).",
        ToolName::Scroll => "Scroll an indexed app element in a direction by a number of pages.",
        ToolName::SelectText => "Select exact text in an indexed editable element or place the cursor before/after it.",
        ToolName::SetValue => "Replace the value of an indexed settable accessibility element.",
        ToolName::TypeText => "Type literal text into the current focus in the specified app.",
        ToolName::BrowsersList => "List Playwright/CDP browsers this standalone CUA can attach to.",
        ToolName::TabsList => "List open pages in the Playwright browser session.",
        ToolName::PageGoto => "Navigate the current (or new) Playwright page to a URL.",
        ToolName::PageScreenshot => "Screenshot the current Playwright page. Returns a PNG image.",
        ToolName::PageClick => "Click a CSS selector or viewport coordinate on the current Playwright page.",
        ToolName::PageType => "Type text into the focused Playwright element or a CSS selector.",
        ToolName::PageContent => "Read the current Playwright page URL, title, and visible text.",
        ToolName::PageClose => "Close the Playwright browser session.",
    }
}

/// The kind of a tool.
pub open spec fn tool_kind(tool: ToolName) -> ToolKind {
    match tool {
        ToolName::ListApps => ToolKind::List,
        ToolName::GetAppState => ToolKind::Read,
        ToolName::BrowsersList => ToolKind::List,
        ToolName::TabsList => ToolKind::List,
        ToolName::PageScreenshot => ToolKind::Read,
        ToolName::PageContent => ToolKind::Read,
        _ => ToolKind::Other,
    }
}

/// Whether a tool only looks.
pub open spec fn reads_only(tool: ToolName) -> bool {
    tool_kind(tool) == ToolKind::Read || tool_kind(tool) == ToolKind::List
}

impl ToolName {
    /// The id of this tool.
    pub fn id(self) -> (r: &'static str)
        ensures
            r == tool_id(self),
    {
        match self {
            ToolName::ListApps => "list_apps",
            ToolName::GetAppState => "get_app_state",
            ToolName::Click => "click",
            ToolName::Drag => "drag",
            ToolName::PerformSecondaryAction => "perform_secondary_action",
            ToolName::PressKey => "press_key",
            ToolName::Scroll => "scroll",
            ToolName::SelectText => "select_text",
            ToolName::SetValue => "set_value",
            ToolName::TypeText => "type_text",
            ToolName::BrowsersList => "browsers_list",
            ToolName::TabsList => "tabs_list",
            ToolName::PageGoto => "page_goto",
            ToolName::PageScreenshot => "page_screenshot",
            ToolName::PageClick => "page_click",
            ToolName::PageType => "page_type",
            ToolName::PageContent => "page_content",
            ToolName::PageClose => "page_close",
        }
    }

    /// What this tool is for.
    pub fn description(self) -> (r: &'static str)
        ensures
            r == tool_description(self),
    {
        match self {
            ToolName::ListApps => "List local macOS apps targetable by Sky Computer Use (running/recent, canonical ids). Does not launch ChatGPT.",
            ToolName::GetAppState => "Capture an app window screenshot and indexed accessibility text. Call before acting and after each action. Do not reuse stale element indexes. Does not launch ChatGPT.",
            ToolName::Click => "Click an indexed element from the latest get_app_state tree, or a screenshot coordinate.",
            ToolName::Drag => "Drag between two app-window screenshot-relative coordinates.",
            ToolName::PerformSecondaryAction => "Invoke a secondary accessibility action explicitly exposed for an indexed element.",
            ToolName::PressKey => "Press a key or + separated X keysym-style chord (Return, Tab, Control_L+a, Super_L+d).",
            ToolName::Scroll => "Scroll an indexed app element in a direction by a number of pages.",
            ToolName::SelectText => "Select exact text in an indexed editable element or place the cursor before/after it.",
            ToolName::SetValue => "Replace the value of an indexed settable accessibility element.",
            ToolName::TypeText => "Type literal text into the current focus in the specified app.",
            ToolName::BrowsersList => "List Playwright/CDP browsers this standalone CUA can attach to.",
            ToolName::TabsList => "List open pages in the Playwright browser session.",
            ToolName::PageGoto => "Navigate the current (or new) Playwright page to a URL.",
            ToolName::PageScreenshot => "Screenshot the current Playwright page. Returns a PNG image.",
            ToolName::PageClick => "Click a CSS selector or viewport coordinate on the current Playwright page.",
            ToolName::PageType => "Type text into the focused Playwright element or a CSS selector.",
            ToolName::PageContent => "Read the current Playwright page URL, title, and visible text.",
            ToolName::PageClose => "Close the Playwright browser session.",
        }
    }

    /// The kind of this tool.
    pub fn kind(self) -> (r: ToolKind)
        ensures
            r == tool_kind(self),
    {
        match self {
            ToolName::ListApps => ToolKind::List,
            ToolName::GetAppState => ToolKind::Read,
            ToolName::BrowsersList => ToolKind::List,
            ToolName::TabsList => ToolKind::List,
            ToolName::PageScreenshot => ToolKind::Read,
            ToolName::PageContent => ToolKind::Read,
            _ => ToolKind::Other,
        }
    }
}

/// A call of the `sky rpc` process.
#[derive(Debug, Clone, PartialEq, Eq)]
pub struct SkyRequest {
    pub method: &'static str,
    pub args: JsonValue,
}

/// A tool and what it takes.
pub trait SkyTool {
    type Args: SkyInput;

    /// Which tool this is.
    spec fn tool(&self) -> ToolName;

    /// Which tool this is.
    fn name(&self) -> (r: ToolName)
        ensures
            r == self.tool(),
    ;

    /// The id under which the tool is offered.
    fn id(&self) -> (r: &'static str)
        ensures
            r == tool_id(self.tool()),
    {
        self.name().id()
    }

    /// What the model is told of the tool.
    fn description_template(&self) -> (r: &'static str)
        ensures
            r == tool_description(self.tool()),
    {
        self.name().description()
    }

    /// The kind of the tool.
    fn kind(&self) -> (r: ToolKind)
        ensures
            r == tool_kind(self.tool()),
    {
        self.name().kind()
    }

    /// Where the tool is offered.
    fn tool_namespace(&self) -> (r: ToolNamespace)
        ensures
            r == ToolNamespace::GrokBuild,
    {
        ToolNamespace::GrokBuild
    }

    /// What the session may assume of the tool: one that reads or lists is
    /// read-only, any other may write.
    fn capabilities(&self) -> (r: ToolCapabilities)
        ensures
            r.is_read_only == reads_only(self.tool()),
            r.tool_scope == Some(
                if reads_only(self.tool()) {
                    ToolScope::Read
                } else {
                    ToolScope::Write
                },
            ),
    {
        let read_only: bool = match self.kind() {
            ToolKind::Read => true,
            ToolKind::List => true,
            ToolKind::Other => false,
        };
        ToolCapabilities {
            is_read_only: read_only,
            tool_scope: Some(
                if read_only {
                    ToolScope::Read
                } else {
                    ToolScope::Write
                },
            ),
        }
    }

    /// The call that the tool makes: the method of its own id, with the
    /// arguments that are set.
    fn request(&self, input: &Self::Args) -> (r: SkyRequest)
        ensures
            r.method == tool_id(self.tool()),
            r.args@ == json::compact(JsonView::Object(input.arguments())),
            json::is_plain_value(r.args@),
    {
        proof {
            input.lemma_plain_names();
            json::lemma_compact_keeps_names_plain(input.arguments());
        }
        SkyRequest {
            method: self.id(),
            args: json::compact_json(JsonValue::Object(input.to_arguments())),
        }
    }
}

/// The `list_apps` tool.
#[derive(Debug, Clone, Copy)]
pub struct ListAppsTool;

impl SkyTool for ListAppsTool {
    type Args = ListAppsInput;

    open spec fn tool(&self) -> ToolName {
        ToolName::ListApps
    }

    fn name(&self) -> (r: ToolName) {
        ToolName::ListApps
    }
}

/// The `get_app_state` tool.
#[derive(Debug, Clone, Copy)]
pub struct GetAppStateTool;

impl SkyTool for GetAppStateTool {
    type Args = GetAppStateInput;

    open spec fn tool(&self) -> ToolName {
        ToolName::GetAppState
    }

    fn name(&self) -> (r: ToolName) {
        ToolName::GetAppState
    }
}

/// The `click` tool.
#[derive(Debug, Clone, Copy)]
pub struct ClickTool;

impl SkyTool for ClickTool {
    type Args = ClickInput;

    open spec fn tool(&self) -> ToolName {
        ToolName::Click
    }

    fn name(&self) -> (r: ToolName) {
        ToolName::Click
    }
}

/// The `drag` tool.
#[derive(Debug, Clone, Copy)]
pub struct DragTool;

impl SkyTool for DragTool {
    type Args = DragInput;

    open spec fn tool(&self) -> ToolName {
        ToolName::Drag
    }

    fn name(&self) -> (r: ToolName) {
        ToolName::Drag
    }
}

/// The `perform_secondary_action` tool.
#[derive(Debug, Clone, Copy)]
pub struct PerformSecondaryActionTool;

impl SkyTool for PerformSecondaryActionTool {
    type Args = PerformSecondaryActionInput;

    open spec fn tool(&self) -> ToolName {
        ToolName::PerformSecondaryAction
    }

    fn name(&self) -> (r: ToolName) {
        ToolName::PerformSecondaryAction
    }
}

/// The `press_key` tool.
#[derive(Debug, Clone, Copy)]
pub struct PressKeyTool;

impl SkyTool for PressKeyTool {
    type Args = PressKeyInput;

    open spec fn tool(&self) -> ToolName {
        ToolName::PressKey
    }

    fn name(&self) -> (r: ToolName) {
        ToolName::PressKey
    }
}

/// The `scroll` tool.
#[derive(Debug, Clone, Copy)]
pub struct ScrollTool;

impl SkyTool for ScrollTool {
    type Args = ScrollInput;

    open spec fn tool(&self) -> ToolName {
        ToolName::Scroll
    }

    fn name(&self) -> (r: ToolName) {
        ToolName::Scroll
    }
}

/// The `select_text` tool.
#[derive(Debug, Clone, Copy)]
pub struct SelectTextTool;

impl SkyTool for SelectTextTool {
    type Args = SelectTextInput;

    open spec fn tool(&self) -> ToolName {
        ToolName::SelectText
    }

    fn name(&self) -> (r: ToolName) {
        ToolName::SelectText
    }
}

/// The `set_value` tool.
#[derive(Debug, Clone, Copy)]
pub struct SetValueTool;

impl SkyTool for SetValueTool {
    type Args = SetValueInput;

    open spec fn tool(&self) -> ToolName {
        ToolName::SetValue
    }

    fn name(&self) -> (r: ToolName) {
        ToolName::SetValue
    }
}

/// The `type_text` tool.
#[derive(Debug, Clone, Copy)]
pub struct TypeTextTool;

impl SkyTool for TypeTextTool {
    type Args = TypeTextInput;

    open spec fn tool(&self) -> ToolName {
        ToolName::TypeText
    }

    fn name(&self) -> (r: ToolName) {
        ToolName::TypeText
    }
}

/// The `browsers_list` tool.
#[derive(Debug, Clone, Copy)]
pub struct BrowsersListTool;

impl SkyTool for BrowsersListTool {
    type Args = BrowsersListInput;

    open spec fn tool(&self) -> ToolName {
        ToolName::BrowsersList
    }

    fn name(&self) -> (r: ToolName) {
        ToolName::BrowsersList
    }
}

/// The `tabs_list` tool.
#[derive(Debug, Clone, Copy)]
pub struct TabsListTool;

impl SkyTool for TabsListTool {
    type Args = TabsListInput;

    open spec fn tool(&self) -> ToolName {
        ToolName::TabsList
    }

    fn name(&self) -> (r: ToolName) {
        ToolName::TabsList
    }
}

/// The `page_goto` tool.
#[derive(Debug, Clone, Copy)]
pub struct PageGotoTool;

impl SkyTool for PageGotoTool {
    type Args = PageGotoInput;

    open spec fn tool(&self) -> ToolName {
        ToolName::PageGoto
    }

    fn name(&self) -> (r: ToolName) {
        ToolName::PageGoto
    }
}

/// The `page_screenshot` tool.
#[derive(Debug, Clone, Copy)]
pub struct PageScreenshotTool;

impl SkyTool for PageScreenshotTool {
    type Args = PageScreenshotInput;

    open spec fn tool(&self) -> ToolName {
        ToolName::PageScreenshot
    }

    fn name(&self) -> (r: ToolName) {
        ToolName::PageScreenshot
    }
}

/// The `page_click` tool.
#[derive(Debug, Clone, Copy)]
pub struct PageClickTool;

impl SkyTool for PageClickTool {
    type Args = PageClickInput;

    open spec fn tool(&self) -> ToolName {
        ToolName::PageClick
    }

    fn name(&self) -> (r: ToolName) {
        ToolName::PageClick
    }
}

/// The `page_type` tool.
#[derive(Debug, Clone, Copy)]
pub struct PageTypeTool;

impl SkyTool for PageTypeTool {
    type Args = PageTypeInput;

    open spec fn tool(&self) -> ToolName {
        ToolName::PageType
    }

    fn name(&self) -> (r: ToolName) {
        ToolName::PageType
    }
}

/// The `page_content` tool.
#[derive(Debug, Clone, Copy)]
pub struct PageContentTool;

impl SkyTool for PageContentTool {
    type Args = PageContentInput;

    open spec fn tool(&self) -> ToolName {
        ToolName::PageContent
    }

    fn name(&self) -> (r: ToolName) {
        ToolName::PageContent
    }
}

/// The `page_close` tool.
#[derive(Debug, Clone, Copy)]
pub struct PageCloseTool;

impl SkyTool for PageCloseTool {
    type Args = PageCloseInput;

    open spec fn tool(&self) -> ToolName {
        ToolName::PageClose
    }

    fn name(&self) -> (r: ToolName) {
        ToolName::PageClose
    }
}

/// No two tools share an id.
pub proof fn law_tool_ids_differ(a: ToolName, b: ToolName)
    requires
        a != b,
    ensures
        tool_id(a)@ != tool_id(b)@,
{
    reveal_strlit("list_apps");
    reveal_strlit("get_app_state");
    reveal_strlit("click");
    reveal_strlit("drag");
    reveal_strlit("perform_secondary_action");
    reveal_strlit("press_key");
    reveal_strlit("scroll");
    reveal_strlit("select_text");
    reveal_strlit("set_value");
    reveal_strlit("type_text");
    reveal_strlit("browsers_list");
    reveal_strlit("tabs_list");
    reveal_strlit("page_goto");
    reveal_strlit("page_screenshot");
    reveal_strlit("page_click");
    reveal_strlit("page_type");
    reveal_strlit("page_content");
    reveal_strlit("page_close");
    if tool_id(a)@.len() == tool_id(b)@.len() {
        assert(tool_id(a)@[0] != tool_id(b)@[0] || tool_id(a)@[5] != tool_id(b)@[5]
            || tool_id(a)@[7] != tool_id(b)@[7]);
    }
}

/// An argument that is not set never reaches the process, and every one that
/// is set does.
pub proof fn law_only_set_arguments_are_sent(
    arguments: Seq<(Seq<char>, ScalarView)>,
    sent: (Seq<char>, ScalarView),
)
    ensures
        (json::compact(JsonView::Object(arguments)) matches JsonView::Object(members)
            && members.contains(sent) == (arguments.contains(sent) && !(sent.1 is Null))),
{
    json::law_compact_keeps_what_is_present(arguments, sent);
}

/// Each tool is offered, and calls the process, under the method of its own name.
pub proof fn law_tools_call_their_own_method()
    ensures
        tool_id(ListAppsTool.tool())@ == "list_apps"@,
        tool_id(GetAppStateTool.tool())@ == "get_app_state"@,
        tool_id(ClickTool.tool())@ == "click"@,
        tool_id(DragTool.tool())@ == "drag"@,
        tool_id(PerformSecondaryActionTool.tool())@ == "perform_secondary_action"@,
        tool_id(PressKeyTool.tool())@ == "press_key"@,
        tool_id(ScrollTool.tool())@ == "scroll"@,
        tool_id(SelectTextTool.tool())@ == "select_text"@,
        tool_id(SetValueTool.tool())@ == "set_value"@,
        tool_id(TypeTextTool.tool())@ == "type_text"@,
        tool_id(BrowsersListTool.tool())@ == "browsers_list"@,
        tool_id(TabsListTool.tool())@ == "tabs_list"@,
        tool_id(PageGotoTool.tool())@ == "page_goto"@,
        tool_id(PageScreenshotTool.tool())@ == "page_screenshot"@,
        tool_id(PageClickTool.tool())@ == "page_click"@,
        tool_id(PageTypeTool.tool())@ == "page_type"@,
        tool_id(PageContentTool.tool())@ == "page_content"@,
        tool_id(PageCloseTool.tool())@ == "page_close"@,
{
}

/// The tools that list apps, browsers and tabs, and those that capture an app, a
/// page or its text, only look; every other tool may change what it works on.
pub proof fn law_only_listing_and_capturing_reads_only(tool: ToolName)
    ensures
        tool_kind(tool) == ToolKind::List <==> tool == ToolName::ListApps || tool
            == ToolName::BrowsersList || tool == ToolName::TabsList,
        tool_kind(tool) == ToolKind::Read <==> tool == ToolName::GetAppState || tool
            == ToolName::PageScreenshot || tool == ToolName::PageContent,
        reads_only(tool) <==> tool_kind(tool) != ToolKind::Other,
{
}

} // verus!
