use shuvgrok::json::{compact_json, JsonValue, Member, Scalar};
use shuvgrok::sky::inputs::{
    ClickInput, DragInput, GetAppStateInput, ListAppsInput, PageClickInput, PageGotoInput,
    PageTypeInput, PerformSecondaryActionInput, PressKeyInput, ScrollInput, SelectTextInput,
    SetValueInput, ToolInput, TypeTextInput,
};
use shuvgrok::sky::locate::{sky_bin, sky_candidates, SkyBase, SkyPlaces};
use shuvgrok::sky::output::{
    named_result_to_output, sky_result_to_output, suppresses_duplicate_sky_mcp, ContentBlock, SkyOutput, ToolOutput,
};
use shuvgrok::sky::rpc::{
    read_reply, reply_line, slot_action, timeout_secs, ReplyStep, SkyCallResult, SkyFault, SkyRpc,
    SlotAction, ToolError,
};
use shuvgrok::sky::screenshot::{
    can_encode, load_named_screenshot, load_screenshot, mime_for_name, mime_for_path,
    path_from_file_url, screenshot_file,
};
use shuvgrok::sky::tools::{
    BrowsersListTool, ClickTool, DragTool, GetAppStateTool, ListAppsTool, PageClickTool,
    PageCloseTool, PageContentTool, PageGotoTool, PageScreenshotTool, PageTypeTool,
    PerformSecondaryActionTool, PressKeyTool, ScrollTool, SelectTextTool, SetValueTool, SkyTool,
    TabsListTool, ToolKind, ToolNamespace, ToolScope, TypeTextTool,
};

#[test]
fn tool_ids_match_sky_cli() {
    assert_eq!(ListAppsTool.id(), "list_apps");
    assert_eq!(GetAppStateTool.id(), "get_app_state");
    assert_eq!(ClickTool.id(), "click");
    assert_eq!(DragTool.id(), "drag");
    assert_eq!(PerformSecondaryActionTool.id(), "perform_secondary_action");
    assert_eq!(PressKeyTool.id(), "press_key");
    assert_eq!(ScrollTool.id(), "scroll");
    assert_eq!(SelectTextTool.id(), "select_text");
    assert_eq!(SetValueTool.id(), "set_value");
    assert_eq!(TypeTextTool.id(), "type_text");
    assert_eq!(BrowsersListTool.id(), "browsers_list");
    assert_eq!(TabsListTool.id(), "tabs_list");
    assert_eq!(PageGotoTool.id(), "page_goto");
    assert_eq!(PageScreenshotTool.id(), "page_screenshot");
    assert_eq!(PageClickTool.id(), "page_click");
    assert_eq!(PageTypeTool.id(), "page_type");
    assert_eq!(PageContentTool.id(), "page_content");
    assert_eq!(PageCloseTool.id(), "page_close");
}

#[test]
fn read_tools_are_read_only() {
    assert!(ListAppsTool.capabilities().is_read_only);
    assert!(GetAppStateTool.capabilities().is_read_only);
    assert!(PageScreenshotTool.capabilities().is_read_only);
    assert!(PageContentTool.capabilities().is_read_only);
    assert!(!ClickTool.capabilities().is_read_only);
    assert!(!PageGotoTool.capabilities().is_read_only);
    assert!(!TypeTextTool.capabilities().is_read_only);
}

#[test]
fn inputs_convert_to_dynamic_tool_input() {
    let input = ToolInput::from(ListAppsInput {});
    match input {
        ToolInput::Dynamic(value) => assert!(value.is_object()),
    }
}

#[test]
fn suppresses_mcp_sky_by_default() {
    assert!(suppresses_duplicate_sky_mcp("sky", false));
    assert!(suppresses_duplicate_sky_mcp("SKY", false));
    assert!(!suppresses_duplicate_sky_mcp("playwright", false));
    assert!(!suppresses_duplicate_sky_mcp("sky", true));
}

#[test]
fn get_app_state_output_includes_image_block() {
    let output = SkyOutput {
        text: "AX tree".into(),
        screenshot_mime: Some("image/png".into()),
        screenshot_b64: Some("abcd".into()),
        screenshot_path: Some("/tmp/shot.png".into()),
    };
    let blocks = output.model_output();
    assert!(matches!(
        &blocks[0],
        ContentBlock::Text { text } if text == "AX tree"
    ));
    assert!(matches!(
        &blocks[1],
        ContentBlock::Image {
            mime_type,
            data,
            path,
            filename,
            ..
        } if mime_type == "image/png" && data == "abcd"
            && path.as_deref() == Some("/tmp/shot.png")
            && filename.as_deref() == Some("shot.png")
    ));
}

#[test]
fn parses_file_urls() {
    assert_eq!(
        path_from_file_url("file:///tmp/shot.png").as_deref(),
        Some("/tmp/shot.png")
    );
    assert_eq!(path_from_file_url("https://example.com/a.png"), None);
    assert_eq!(
        path_from_file_url("file://localhost/tmp/a").as_deref(),
        Some("/tmp/a")
    );
    assert_eq!(path_from_file_url("file://"), None);
    assert_eq!(path_from_file_url("file://localhost"), None);
}

#[test]
fn parses_data_urls() {
    let loaded = load_screenshot("data:image/png;base64,abcd", None).expect("data url");
    assert_eq!(loaded.0, "image/png");
    assert_eq!(loaded.1, "abcd");
    assert_eq!(loaded.2, "");
    assert_eq!(screenshot_file("data:image/png;base64,abcd"), None);
}

#[test]
fn loads_screenshot_files() {
    let url = "file:///tmp/shot.JPEG";
    assert_eq!(screenshot_file(url).as_deref(), Some("/tmp/shot.JPEG"));
    assert_eq!(
        load_screenshot(url, Some(b"hello".to_vec())),
        Some((
            "image/jpeg".into(),
            "aGVsbG8=".into(),
            "/tmp/shot.JPEG".into()
        ))
    );
    assert!(can_encode(&None) && can_encode(&Some(vec![1, 2, 3, 4])));
    assert_eq!(load_screenshot(url, None), None);
    assert_eq!(load_screenshot("data:image/png,abcd", Some(vec![1])), None);
    assert_eq!(
        load_screenshot("file:///a", Some(vec![255, 254])).unwrap().1,
        "//4="
    );
    for (bytes, data) in [("", ""), ("f", "Zg=="), ("fo", "Zm8="), ("foobar", "Zm9vYmFy")] {
        assert_eq!(
            load_screenshot("file:///a", Some(bytes.as_bytes().to_vec())).unwrap().1,
            data
        );
    }
}

#[test]
fn file_names_are_those_of_std() {
    for path in [
        "/tmp/shot.png", "C:\\a\\b.png", "//s/t", "", "/", ".", "..", "a", "a/", "/a//", "a/.", "a/./", "./", "/.", "a/..", "../a", "a/b.c",
        ".a", "a.", "...", "//", "/a/b/../c.PNG", "a/.b.gif", "x/.gif",
    ] {
        let expected = std::path::Path::new(path)
            .file_name()
            .and_then(|name| name.to_str())
            .map(str::to_owned);
        let output = SkyOutput {
            text: String::new(),
            screenshot_mime: Some("m".into()),
            screenshot_b64: Some("d".into()),
            screenshot_path: Some(path.into()),
        };
        match &output.model_output()[1] {
            ContentBlock::Image { filename, .. } => assert_eq!(*filename, expected, "{path:?}"),
            other => panic!("unexpected {other:?}"),
        }
        assert_eq!(output.model_output_named(expected), output.model_output());
        let ext = std::path::Path::new(path)
            .extension()
            .and_then(|ext| ext.to_str())
            .map(str::to_ascii_lowercase);
        let mime = match ext.as_deref() {
            Some("gif") => "image/gif",
            _ => "image/png",
        };
        assert_eq!(mime_for_path(path), mime, "{path:?}");
    }
    assert_eq!(mime_for_path("a.jpg"), "image/jpeg");
    assert_eq!(mime_for_path("a.WebP"), "image/webp");
    assert_eq!(mime_for_path("a.png.txt"), "image/png");
    for (name, mime) in [
        (Some("b.JPG"), "image/jpeg"),
        (Some(".gif"), "image/png"),
        (Some("a."), "image/png"),
        (None, "image/png"),
    ] {
        let name = name.map(str::to_owned);
        assert_eq!(mime_for_name(&name), mime);
        assert_eq!(
            load_named_screenshot("file:///x", Some(vec![]), &name),
            Some((mime.into(), "".into(), "/x".into()))
        );
    }
}

#[test]
fn outputs() {
    let plain = SkyOutput::from(String::from("hi"));
    assert_eq!(plain.text, "hi");
    assert_eq!(plain.model_output().len(), 1);
    assert_eq!(SkyOutput::default().text, "");
    assert_eq!(ToolOutput::from(plain), ToolOutput::Text("hi".into()));
    let half = SkyOutput {
        text: "t".into(),
        screenshot_mime: Some("image/png".into()),
        screenshot_b64: None,
        screenshot_path: None,
    };
    assert_eq!(half.model_output().len(), 1);
    let result = |url: Option<&str>| SkyCallResult {
        text: "t".into(),
        screenshot_url: url.map(str::to_owned),
    };
    let data = sky_result_to_output(result(Some("data:image/gif;base64,QQ==")), None);
    assert_eq!(data.screenshot_mime.as_deref(), Some("image/gif"));
    assert_eq!(data.screenshot_b64.as_deref(), Some("QQ=="));
    assert_eq!(data.screenshot_path, None);
    let file = sky_result_to_output(result(Some("file:///s.png")), Some(vec![0]));
    assert_eq!(file.screenshot_b64.as_deref(), Some("AA=="));
    assert_eq!(file.screenshot_path.as_deref(), Some("/s.png"));
    let named = named_result_to_output(
        result(Some("file:///s.png")),
        Some(vec![0]),
        &Some("s.gif".to_string()),
    );
    assert_eq!(named.screenshot_mime.as_deref(), Some("image/gif"));
    let none = sky_result_to_output(result(None), Some(vec![0]));
    assert_eq!(none, SkyOutput::from(String::from("t")));
    let missing = sky_result_to_output(result(Some("file:///s.png")), None);
    assert_eq!(missing, SkyOutput::from(String::from("t")));
}

#[test]
fn tool_metadata() {
    assert_eq!(ListAppsTool.kind(), ToolKind::List);
    assert_eq!(PageScreenshotTool.kind(), ToolKind::Read);
    assert_eq!(PageCloseTool.kind(), ToolKind::Other);
    assert_eq!(ClickTool.tool_namespace(), ToolNamespace::GrokBuild);
    assert_eq!(TabsListTool.capabilities().tool_scope, Some(ToolScope::Read));
    assert_eq!(DragTool.capabilities().tool_scope, Some(ToolScope::Write));
    assert_eq!(
        PageCloseTool.description_template(),
        "Close the Playwright browser session."
    );
}

fn object(members: Vec<(&str, Scalar)>) -> JsonValue {
    JsonValue::Object(
        members
            .into_iter()
            .map(|(name, value)| (name.to_string(), value))
            .collect(),
    )
}

fn text(value: &str) -> Scalar {
    Scalar::Text(value.into())
}

fn number(value: f64) -> Option<serde_json::Number> {
    serde_json::Number::from_f64(value)
}

#[test]
fn requests_send_what_is_set() {
    let request = GetAppStateTool.request(&GetAppStateInput {
        app: "Notes".into(),
        disable_diff: Some(true),
    });
    assert_eq!(request.method, "get_app_state");
    assert_eq!(
        request.args,
        object(vec![
            ("app", text("Notes")),
            ("disableDiff", Scalar::Bool(true))
        ])
    );
    let request = ClickTool.request(&ClickInput {
        app: "Notes".into(),
        element_index: Some(3),
        x: None,
        y: number(1.5),
        mouse_button: None,
        click_count: None,
    });
    assert_eq!(
        request.args,
        object(vec![
            ("app", text("Notes")),
            ("element_index", Scalar::Integer(3)),
            ("y", Scalar::Number(number(1.5).unwrap())),
        ])
    );
    let request = DragTool.request(&DragInput {
        app: "a".into(),
        from_x: number(0.0),
        from_y: number(f64::NAN),
        to_x: None,
        to_y: None,
    });
    assert_eq!(
        request.args,
        object(vec![
            ("app", text("a")),
            ("from_x", Scalar::Number(number(0.0).unwrap()))
        ])
    );
    assert_eq!(ListAppsTool.request(&ListAppsInput {}).args, object(vec![]));
    assert_eq!(
        PerformSecondaryActionTool
            .request(&PerformSecondaryActionInput {
                app: "a".into(),
                element_index: -1,
                action: "x".into()
            })
            .args,
        object(vec![
            ("app", text("a")),
            ("element_index", Scalar::Integer(-1)),
            ("action", text("x"))
        ])
    );
    assert_eq!(
        PressKeyTool
            .request(&PressKeyInput {
                app: "a".into(),
                key: "Tab".into()
            })
            .args,
        object(vec![("app", text("a")), ("key", text("Tab"))])
    );
    assert_eq!(
        ScrollTool
            .request(&ScrollInput {
                app: "a".into(),
                element_index: 1,
                direction: "down".into(),
                pages: number(2.0)
            })
            .args,
        object(vec![
            ("app", text("a")),
            ("element_index", Scalar::Integer(1)),
            ("direction", text("down")),
            ("pages", Scalar::Number(number(2.0).unwrap()))
        ])
    );
    assert_eq!(
        SelectTextTool
            .request(&SelectTextInput {
                app: "a".into(),
                element_index: 1,
                text: "t".into(),
                prefix: Some("p".into()),
                suffix: None,
                selection_type: Some("s".into())
            })
            .args,
        object(vec![
            ("app", text("a")),
            ("element_index", Scalar::Integer(1)),
            ("text", text("t")),
            ("prefix", text("p")),
            ("selection_type", text("s"))
        ])
    );
    assert_eq!(
        SetValueTool
            .request(&SetValueInput {
                app: "a".into(),
                element_index: 1,
                value: "v".into()
            })
            .args,
        object(vec![
            ("app", text("a")),
            ("element_index", Scalar::Integer(1)),
            ("value", text("v"))
        ])
    );
    assert_eq!(
        TypeTextTool
            .request(&TypeTextInput {
                app: "a".into(),
                text: "t".into()
            })
            .args,
        object(vec![("app", text("a")), ("text", text("t"))])
    );
    assert_eq!(
        PageGotoTool
            .request(&PageGotoInput {
                url: "u".into(),
                new_tab: Some(false)
            })
            .args,
        object(vec![("url", text("u")), ("new_tab", Scalar::Bool(false))])
    );
    assert_eq!(
        PageClickTool
            .request(&PageClickInput {
                selector: Some("s".into()),
                x: None,
                y: None
            })
            .args,
        object(vec![("selector", text("s"))])
    );
    assert_eq!(
        PageTypeTool
            .request(&PageTypeInput {
                text: "t".into(),
                selector: None
            })
            .args,
        object(vec![("text", text("t"))])
    );
}

#[test]
fn dynamic_inputs_keep_every_field() {
    let input = GetAppStateInput {
        app: "Notes".into(),
        disable_diff: None,
    };
    assert_eq!(
        ToolInput::from(input),
        ToolInput::Dynamic(object(vec![
            ("app", text("Notes")),
            ("disable_diff", Scalar::Null)
        ]))
    );
}

#[test]
fn compacting_drops_nulls_only() {
    assert_eq!(
        compact_json(object(vec![("a", Scalar::Null), ("b", Scalar::Bool(false))])),
        object(vec![("b", Scalar::Bool(false))])
    );
    assert_eq!(
        compact_json(JsonValue::Scalar(Scalar::Null)),
        JsonValue::Scalar(Scalar::Null)
    );
}

#[test]
fn request_lines() {
    let mut rpc = SkyRpc::new();
    assert!(rpc.has_id());
    let (id, line) = rpc.request(
        "type_text",
        object(vec![
            ("text", text("a\n\"b\"")),
            ("n", Scalar::Integer(-2)),
            ("x", Scalar::Number(number(0.5).unwrap())),
            ("t", Scalar::Bool(true)),
            ("z", Scalar::Null),
        ]),
    );
    assert_eq!(id, 1);
    assert_eq!(line.matches('\n').count(), 1);
    assert!(line.ends_with("}\n"));
    let value: serde_json::Value = serde_json::from_str(&line).unwrap();
    assert_eq!(value["id"], "1");
    assert_eq!(value["method"], "type_text");
    assert_eq!(value["args"]["text"], "a\n\"b\"");
    assert_eq!(value["args"]["n"], -2);
    assert_eq!(value["args"]["x"], 0.5);
    assert_eq!(value["args"]["t"], true);
    assert!(value["args"]["z"].is_null());
    assert_eq!(value.as_object().unwrap().len(), 3);
    let (next, _) = rpc.request("list_apps", JsonValue::Scalar(Scalar::Null));
    assert_eq!(next, 2);
}

#[test]
fn reserved_names_stay_out_of_tool_requests() {
    let reserved = "$serde_json::private::RawValue";
    let (_, line) = SkyRpc::new().request("m", object(vec![(reserved, text("x"))]));
    assert!(line.contains(reserved));
    let request = GetAppStateTool.request(&GetAppStateInput {
        app: reserved.into(),
        disable_diff: None,
    });
    let (_, line) = SkyRpc::new().request(request.method, request.args);
    let value: serde_json::Value = serde_json::from_str(&line).unwrap();
    assert_eq!(value["method"], "get_app_state");
    assert_eq!(value["args"]["app"], reserved);
    let extremes = [f64::MAX, f64::MIN, f64::MIN_POSITIVE, 5e-324, -0.0];
    for x in extremes {
        let args = object(vec![("x", Scalar::Number(number(x).unwrap()))]);
        let (_, line) = SkyRpc::new().request("m", args);
        let value: serde_json::Value = serde_json::from_str(&line).unwrap();
        assert_eq!(value["id"], "1");
    }
}

#[test]
fn replies() {
    assert_eq!(reply_line(1, ""), ReplyStep::Failed(SkyFault::Closed));
    assert_eq!(reply_line(1, " \n"), ReplyStep::Continue);
    assert_eq!(
        reply_line(1, "{\"id\":\"2\",\"ok\":true}\n"),
        ReplyStep::Continue
    );
    assert_eq!(reply_line(1, "{\"id\":1,\"ok\":true}\n"), ReplyStep::Continue);
    assert_eq!(reply_line(1, "[1]"), ReplyStep::Continue);
    for other in ["null", "1.5", "[\"1\"]", "{}", "true"] {
        let line = format!("{{\"id\":{other},\"ok\":true}}");
        assert_eq!(reply_line(1, &line), ReplyStep::Continue);
    }
    assert_eq!(
        reply_line(1, "{\"id\":\"1\",\"ok\":false,\"error\":\"boom\"}"),
        ReplyStep::Failed(SkyFault::Failed("boom".into()))
    );
    assert_eq!(
        reply_line(1, "{\"id\":\"1\",\"error\":7}"),
        ReplyStep::Failed(SkyFault::Failed("sky rpc failed".into()))
    );
    assert_eq!(
        reply_line(1, "{\"id\":\"1\",\"ok\":true}"),
        ReplyStep::Done(SkyCallResult {
            text: "ok".into(),
            screenshot_url: None
        })
    );
    assert_eq!(
        reply_line(
            12,
            " {\"id\":\"12\",\"ok\":true,\"result\":{\"text\":\"t\",\"screenshot\":\"file:///a\"}}\n"
        ),
        ReplyStep::Done(SkyCallResult {
            text: "t".into(),
            screenshot_url: Some("file:///a".into())
        })
    );
    match reply_line(1, "nonsense") {
        ReplyStep::Failed(SkyFault::InvalidJson(error)) => {
            assert_eq!(
                error,
                serde_json::from_str::<serde_json::Value>("nonsense")
                    .unwrap_err()
                    .to_string()
            );
        }
        other => panic!("unexpected {other:?}"),
    }
}

#[test]
fn reply_members() {
    let members = |id: Option<Member>, ok: Option<Member>| {
        vec![id, ok, None, Some(Member::Other), Some(Member::Text("s".into()))]
    };
    let one = || Some(Member::Text("1".into()));
    assert_eq!(
        read_reply(1, &members(one(), Some(Member::Bool(true)))),
        ReplyStep::Done(SkyCallResult {
            text: "ok".into(),
            screenshot_url: Some("s".into())
        })
    );
    assert_eq!(
        read_reply(1, &members(one(), Some(Member::Text("true".into())))),
        ReplyStep::Failed(SkyFault::Failed("sky rpc failed".into()))
    );
    assert_eq!(read_reply(1, &members(None, None)), ReplyStep::Continue);
    assert_eq!(
        read_reply(2, &members(one(), Some(Member::Bool(true)))),
        ReplyStep::Continue
    );
}

#[test]
fn fault_messages() {
    let cases: Vec<(SkyFault, &str)> = vec![
        (
            SkyFault::Spawn {
                bin: "/b".into(),
                error: "e".into(),
            },
            "failed to spawn /b rpc: e",
        ),
        (SkyFault::StdinMissing, "sky rpc stdin missing"),
        (SkyFault::StdoutMissing, "sky rpc stdout missing"),
        (SkyFault::Write("e".into()), "sky rpc write failed: e"),
        (SkyFault::Flush("e".into()), "sky rpc flush failed: e"),
        (SkyFault::Read("e".into()), "sky rpc read failed: e"),
        (SkyFault::Closed, "sky rpc closed"),
        (SkyFault::InvalidJson("e".into()), "sky rpc invalid json: e"),
        (SkyFault::Failed("e".into()), "e"),
        (
            SkyFault::TimedOut {
                method: "click".into(),
                secs: 180,
            },
            "sky click timed out after 180s",
        ),
    ];
    for (fault, message) in cases {
        assert_eq!(fault.message(), message);
        assert_eq!(
            fault.error(),
            ToolError::Execution {
                tool: "sky".into(),
                message: message.into()
            }
        );
    }
}

#[test]
fn timeouts() {
    assert_eq!(timeout_secs(None), 180);
    assert_eq!(timeout_secs(Some("")), 180);
    assert_eq!(timeout_secs(Some("0")), 180);
    assert_eq!(timeout_secs(Some("x")), 180);
    assert_eq!(timeout_secs(Some("+7")), 7);
    assert_eq!(timeout_secs(Some("18446744073709551615")), u64::MAX);
    assert_eq!(timeout_secs(Some("18446744073709551616")), 180);
}

#[test]
fn slots() {
    assert_eq!(slot_action(None), SlotAction::Spawn);
    assert_eq!(slot_action(Some(false)), SlotAction::Spawn);
    assert_eq!(slot_action(Some(true)), SlotAction::Reuse);
}

#[test]
fn candidates_come_in_order() {
    let all = SkyPlaces {
        explicit: true,
        standalone_root: true,
        root: true,
        working_dir: true,
        search_path: true,
        home: true,
    };
    let found: Vec<(SkyBase, &str)> = sky_candidates(all)
        .iter()
        .map(|candidate| (candidate.base, candidate.suffix))
        .collect();
    assert_eq!(
        found,
        vec![
            (SkyBase::Explicit, ""),
            (SkyBase::StandaloneRoot, "bin/sky"),
            (SkyBase::WorkingDir, "bin/sky"),
            (SkyBase::WorkingDir, "sky-re/bin/sky"),
            (SkyBase::WorkingDir, "../sky-re/bin/sky"),
            (SkyBase::SearchPath, ""),
            (SkyBase::Home, "sky-re/bin/sky"),
            (SkyBase::Home, "code/sky-re/bin/sky"),
            (SkyBase::Home, "src/sky-re/bin/sky"),
            (SkyBase::Home, "Projects/sky-re/bin/sky"),
            (SkyBase::Home, "dev/sky-re/bin/sky"),
        ]
    );
    let root = sky_candidates(SkyPlaces {
        explicit: false,
        standalone_root: false,
        root: true,
        working_dir: false,
        search_path: false,
        home: false,
    });
    assert_eq!(root.len(), 1);
    assert_eq!(root[0].base, SkyBase::Root);
    assert_eq!(sky_bin(&vec![false, true, true]), Ok(1));
    assert_eq!(sky_bin(&vec![true, false]), Ok(0));
    assert_eq!(
        sky_bin(&vec![false]),
        Err(ToolError::Custom {
            code: "sky_not_found".into(),
            message: "sky-standalone not found. Clone agustif/sky-re, run examples/setup.sh, set SKY_STANDALONE_ROOT.".into()
        })
    );
}
