//! What is decided while the plugin starts.
use crate::text;
use crate::text::{blank, cat2, cat4, join, trim};
use vstd::prelude::*;
use vstd::string::*;

verus! {

/// The data directory that the host gave.
pub fn data_directory(data_dir: &str) -> (result: Result<String, String>)
    ensures
        match result {
            Ok(directory) => !text::is_blank(data_dir@) && directory@ == text::trimmed(data_dir@),
            Err(message) => text::is_blank(data_dir@) && message@
                == "QimenBot 未提供 data_dir，无法安全创建游戏数据库"@,
        },
{
    if blank(data_dir) {
        return Err("QimenBot 未提供 data_dir，无法安全创建游戏数据库".to_owned());
    }
    Ok(trim(data_dir).to_owned())
}

/// Decides on a package of content that was laid down, by what checking it against the
/// catalogue found: whether it is published now.
pub fn draft_verdict(errors: &Vec<String>, auto_publish: bool) -> (result: Result<bool, String>)
    ensures
        match result {
            Ok(publish) => errors@.len() == 0 && publish == auto_publish,
            Err(message) => errors@.len() > 0 && message@ == "内容包校验失败："@ + text::joined(
                text::texts(errors@),
                "；"@,
            ),
        },
{
    if errors.len() > 0 {
        return Err(cat2("内容包校验失败：", join(errors, "；").as_str()));
    }
    Ok(auto_publish)
}

/// Which server runs after a new configuration was put in place.
#[derive(Clone, Copy, Debug, PartialEq, Eq, Structural)]
pub enum ServerSlot {
    /// None.
    Empty,
    /// The one with the new configuration, where one is configured.
    Replacement,
    /// The one that ran before, where one did.
    Previous,
}

/// Says which server runs, given how the start of the new one went, and, where one ran
/// before and the start failed, how starting that one again went.
pub open spec fn replaced(
    start: Result<(), Seq<char>>,
    restart: Option<Result<(), Seq<char>>>,
) -> (ServerSlot, Option<Seq<char>>) {
    match start {
        Ok(()) => (ServerSlot::Replacement, None),
        Err(error) => match restart {
            Some(Err(restart_error)) => (
                ServerSlot::Empty,
                Some("管理服务新配置启动失败："@ + error + "；恢复旧服务失败："@ + restart_error),
            ),
            _ => (ServerSlot::Previous, Some(error)),
        },
    }
}

/// The outcome of a start.
pub open spec fn start_outcome(result: Result<(), String>) -> Result<(), Seq<char>> {
    match result {
        Ok(()) => Ok(()),
        Err(message) => Err(message@),
    }
}

/// Puts a new server in the place of the one that ran before: where it does not start, the
/// one before is kept.
pub fn replace_server(start: Result<(), String>, restart: Option<Result<(), String>>) -> (outcome: (
    ServerSlot,
    Option<String>,
))
    ensures
        (outcome.0, text::optional_text(outcome.1)) == replaced(
            start_outcome(start),
            match restart {
                Some(restart) => Some(start_outcome(restart)),
                None => None,
            },
        ),
{
    match start {
        Ok(()) => (ServerSlot::Replacement, None),
        Err(error) => match restart {
            Some(Err(restart_error)) => (
                ServerSlot::Empty,
                Some(
                    cat4(
                        "管理服务新配置启动失败：",
                        error.as_str(),
                        "；恢复旧服务失败：",
                        restart_error.as_str(),
                    ),
                ),
            ),
            _ => (ServerSlot::Previous, Some(error)),
        },
    }
}

/// A failing configuration never takes the place of a server that can run.
pub proof fn a_failing_start_keeps_the_server(
    error: Seq<char>,
    restart: Option<Result<(), Seq<char>>>,
)
    ensures
        replaced(Err(error), restart).0 != ServerSlot::Replacement,
        replaced(Err(error), restart).1 is Some,
        restart == Some(Ok::<(), Seq<char>>(())) ==> replaced(Err(error), restart).0
            == ServerSlot::Previous,
{
}

} // verus!
