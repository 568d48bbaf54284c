//! What a tool call gives back.

use vstd::prelude::*;
use crate::auth::model;
use crate::sky::rpc::SkyCallResult;
use crate::sky::screenshot;
use crate::text;

verus! {

/// Text of a call, and its screenshot where there is one.
#[derive(Debug, Clone, PartialEq, Eq)]
pub struct SkyOutput {
    pub text: String,
    pub screenshot_mime: Option<String>,
    pub screenshot_b64: Option<String>,
    pub screenshot_path: Option<String>,
}

impl Default for SkyOutput {
    fn default() -> (r: Self)
        ensures
            r.text@ == Seq::<char>::empty(),
            r.screenshot_mime is None,
            r.screenshot_b64 is None,
            r.screenshot_path is None,
    {
        SkyOutput {
            text: String::new(),
            screenshot_mime: None,
            screenshot_b64: None,
            screenshot_path: None,
        }
    }
}

impl From<String> for SkyOutput {
    fn from(text: String) -> (r: Self) {
        SkyOutput { text, screenshot_mime: None, screenshot_b64: None, screenshot_path: None }
    }
}

impl vstd::std_specs::convert::FromSpecImpl<String> for SkyOutput {
    open spec fn obeys_from_spec() -> bool {
        true
    }

    open spec fn from_spec(text: String) -> SkyOutput {
        SkyOutput { text, screenshot_mime: None, screenshot_b64: None, screenshot_path: None }
    }
}

/// Output of a tool as the session keeps it.
#[derive(Debug, Clone, PartialEq, Eq)]
pub enum ToolOutput {
    Text(String),
}

impl From<SkyOutput> for ToolOutput {
    fn from(output: SkyOutput) -> (r: Self) {
        ToolOutput::Text(output.text)
    }
}

impl vstd::std_specs::convert::FromSpecImpl<SkyOutput> for ToolOutput {
    open spec fn obeys_from_spec() -> bool {
        true
    }

    open spec fn from_spec(output: SkyOutput) -> ToolOutput {
        ToolOutput::Text(output.text)
    }
}

/// A piece of what the model is shown.
#[derive(Debug, Clone, PartialEq, Eq)]
pub enum ContentBlock {
    Text { text: String },
    Image {
        mime_type: String,
        data: String,
        media_id: Option<String>,
        filename: Option<String>,
        path: Option<String>,
        metadata: Vec<(String, String)>,
    },
}

impl SkyOutput {
    /// Whether there is a screenshot to show.
    pub open spec fn has_image(self) -> bool {
        self.screenshot_mime is Some && self.screenshot_b64 is Some
    }

    /// Whether these blocks show the output, with a screenshot file of this name:
    /// the text, then the screenshot where both its media type and its data are
    /// there.
    pub open spec fn is_shown_by(
        self,
        blocks: Seq<ContentBlock>,
        file_name: Option<Seq<char>>,
    ) -> bool {
        &&& blocks.len() == (if self.has_image() {
            2nat
        } else {
            1nat
        })
        &&& (blocks[0] matches ContentBlock::Text { text } && text@ == self.text@)
        &&& self.has_image() ==> (blocks[1] matches ContentBlock::Image {
            mime_type,
            data,
            media_id,
            filename,
            path,
            metadata,
        } && mime_type@ == self.screenshot_mime->0@ && data@ == self.screenshot_b64->0@
            && media_id is None && model::text_view(filename) == file_name && model::text_view(path)
            == model::text_view(self.screenshot_path) && metadata@.len() == 0)
    }

    /// What the model is shown, given the name of the screenshot's file.
    pub fn model_output_named(&self, file_name: Option<String>) -> (r: Vec<ContentBlock>)
        ensures
            self.is_shown_by(r@, model::text_view(file_name)),
    {
        let mut blocks: Vec<ContentBlock> = Vec::new();
        blocks.push(ContentBlock::Text { text: self.text.clone() });
        if let Some(mime_type) = &self.screenshot_mime {
            if let Some(data) = &self.screenshot_b64 {
                let path: Option<String> = match &self.screenshot_path {
                    Some(path) => Some(path.clone()),
                    None => None,
                };
                blocks.push(
                    ContentBlock::Image {
                        mime_type: mime_type.clone(),
                        data: data.clone(),
                        media_id: None,
                        filename: file_name,
                        path,
                        metadata: Vec::new(),
                    },
                );
            }
        }
        blocks
    }

    /// What the model is shown: the text, then the screenshot where both its
    /// media type and its data are there.
    pub fn model_output(&self) -> (r: Vec<ContentBlock>)
        ensures
            exists|name: Option<Seq<char>>| #[trigger]
                screenshot::names_optional_file(model::text_view(self.screenshot_path), name)
                    && self.is_shown_by(r@, name),
    {
        let file_name: Option<String> = screenshot::optional_file_name_of(&self.screenshot_path);
        self.model_output_named(file_name)
    }
}

/// The screenshot of a reply, given what the file that it names holds and how
/// that file is called.
pub open spec fn reply_screenshot(
    url: Option<Seq<char>>,
    contents: Option<Seq<u8>>,
    name: Option<Seq<char>>,
) -> Option<(Seq<char>, Seq<char>, Seq<char>)> {
    match url {
        Some(url) => screenshot::screenshot(url, contents, name),
        None => None,
    }
}

/// The path that a reply's screenshot URL names.
pub open spec fn reply_path(url: Option<Seq<char>>) -> Option<Seq<char>> {
    match url {
        Some(url) => screenshot::file_url_path(url),
        None => None,
    }
}

/// Whether `output` has this text and this screenshot.
pub open spec fn is_output(
    output: SkyOutput,
    text: Seq<char>,
    shot: Option<(Seq<char>, Seq<char>, Seq<char>)>,
) -> bool {
    &&& output.text@ == text
    &&& match shot {
        Some((mime, data, path)) => {
            &&& model::text_view(output.screenshot_mime) == Some(mime)
            &&& model::text_view(output.screenshot_b64) == Some(data)
            &&& model::text_view(output.screenshot_path) == (if path.len() == 0 {
                None
            } else {
                Some(path)
            })
        },
        None => output.screenshot_mime is None && output.screenshot_b64 is None
            && output.screenshot_path is None,
    }
}

fn with_screenshot(text: String, shot: Option<(String, String, String)>) -> (r: SkyOutput)
    ensures
        match shot {
            Some((mime, data, path)) => is_output(r, text@, Some((mime@, data@, path@))),
            None => is_output(r, text@, None),
        },
{
    match shot {
        Some((mime, data, path)) => SkyOutput {
            text,
            screenshot_mime: Some(mime),
            screenshot_b64: Some(data),
            screenshot_path: if path.as_str().is_empty() {
                None
            } else {
                Some(path)
            },
        },
        None => SkyOutput {
            text,
            screenshot_mime: None,
            screenshot_b64: None,
            screenshot_path: None,
        },
    }
}

/// The output of a call, given the bytes of the file that its screenshot is kept
/// in where that could be read, and that file's name.
pub fn named_result_to_output(
    result: SkyCallResult,
    contents: Option<Vec<u8>>,
    name: &Option<String>,
) -> (r: SkyOutput)
    requires
        screenshot::encodable(contents),
    ensures
        is_output(
            r,
            result.text@,
            reply_screenshot(
                model::text_view(result.screenshot_url),
                screenshot::bytes_view(contents),
                model::text_view(*name),
            ),
        ),
{
    let shot: Option<(String, String, String)> = match result.screenshot_url {
        Some(url) => screenshot::load_named_screenshot(url.as_str(), contents, name),
        None => None,
    };
    with_screenshot(result.text, shot)
}

/// The output of a call, given the bytes of the file that its screenshot is
/// kept in where that could be read.
pub fn sky_result_to_output(result: SkyCallResult, contents: Option<Vec<u8>>) -> (r: SkyOutput)
    requires
        screenshot::encodable(contents),
    ensures
        exists|name: Option<Seq<char>>| #[trigger]
            screenshot::names_optional_file(
                reply_path(model::text_view(result.screenshot_url)),
                name,
            ) && is_output(
                r,
                result.text@,
                reply_screenshot(
                    model::text_view(result.screenshot_url),
                    screenshot::bytes_view(contents),
                    name,
                ),
            ),
{
    let path: Option<String> = match &result.screenshot_url {
        Some(url) => screenshot::path_from_file_url(url.as_str()),
        None => None,
    };
    let name: Option<String> = screenshot::optional_file_name_of(&path);
    proof {
        assert(model::text_view(path) == reply_path(model::text_view(result.screenshot_url)));
    }
    named_result_to_output(result, contents, &name)
}

/// Whether the MCP server of this name is left out, because the native tools
/// already offer the same methods. `keep` says that the user wants both.
pub fn suppresses_duplicate_sky_mcp(server_name: &str, keep: bool) -> (r: bool)
    ensures
        r == (text::ascii_lower(server_name@) == "sky"@ && !keep),
{
    proof {
        reveal_strlit("sky");
        assert(text::ascii_lower("sky"@) =~= "sky"@);
    }
    text::same_ignoring_ascii_case(server_name, "sky") && !keep
}

/// An output has the call's text, whatever came of its screenshot, and the media
/// type and the data of its screenshot where there is one, with a path only where
/// that is something.
pub proof fn law_output_holds_text_and_screenshot(
    output: SkyOutput,
    text: Seq<char>,
    mime: Seq<char>,
    data: Seq<char>,
    path: Seq<char>,
)
    ensures
        is_output(output, text, Some((mime, data, path))) ==> {
            &&& output.text@ == text
            &&& output.screenshot_mime is Some && output.screenshot_mime->0@ == mime
            &&& output.screenshot_b64 is Some && output.screenshot_b64->0@ == data
            &&& output.screenshot_path is Some <==> path.len() > 0
            &&& output.screenshot_path is Some ==> output.screenshot_path->0@ == path
        },
        is_output(output, text, None) ==> {
            &&& output.text@ == text
            &&& output.screenshot_mime is None
            &&& output.screenshot_b64 is None
            &&& output.screenshot_path is None
        },
{
}

/// The model is shown the text first, and then the screenshot, exactly where both
/// its media type and its data are there.
pub proof fn law_model_sees_text_then_screenshot(
    output: SkyOutput,
    blocks: Seq<ContentBlock>,
    file_name: Option<Seq<char>>,
)
    requires
        output.is_shown_by(blocks, file_name),
    ensures
        blocks.len() == 2 <==> output.screenshot_mime is Some && output.screenshot_b64 is Some,
        blocks.len() == 1 <==> output.screenshot_mime is None || output.screenshot_b64 is None,
        blocks[0] is Text && blocks[0]->text@ == output.text@,
        blocks.len() == 2 ==> {
            &&& blocks[1] is Image
            &&& blocks[1]->mime_type@ == output.screenshot_mime->0@
            &&& blocks[1]->data@ == output.screenshot_b64->0@
            &&& blocks[1]->media_id is None
            &&& blocks[1]->metadata@.len() == 0
            &&& blocks[1]->filename is Some == file_name is Some
            &&& file_name is Some ==> blocks[1]->filename->0@ == file_name->0
            &&& blocks[1]->path is Some == output.screenshot_path is Some
            &&& output.screenshot_path is Some ==> blocks[1]->path->0@
                == output.screenshot_path->0@
        },
{
}

/// A reply without a screenshot URL has neither a screenshot nor a path; with one,
/// it has those that the URL names.
pub proof fn law_reply_screenshot_is_that_of_its_url(
    url: Seq<char>,
    contents: Option<Seq<u8>>,
    name: Option<Seq<char>>,
)
    ensures
        reply_screenshot(None, contents, name) is None,
        reply_path(None) is None,
        reply_screenshot(Some(url), contents, name) == screenshot::screenshot(url, contents, name),
        reply_path(Some(url)) == screenshot::file_url_path(url),
{
}

/// A text alone makes an output without a screenshot, and the session keeps the
/// text of an output.
pub proof fn law_text_is_kept(text: String, output: SkyOutput)
    ensures
        ({
            let made = <SkyOutput as vstd::std_specs::convert::FromSpec<String>>::from_spec(text);
            &&& made.text == text
            &&& made.screenshot_mime is None
            &&& made.screenshot_b64 is None
            &&& made.screenshot_path is None
        }),
        <ToolOutput as vstd::std_specs::convert::FromSpec<SkyOutput>>::from_spec(output)
            == ToolOutput::Text(output.text),
{
}

} // verus!
