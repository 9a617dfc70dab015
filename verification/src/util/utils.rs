//! The presence that is shown for a buffer: its texts, its images and its
//! buttons, and the workspace and repository that they name.

use crate::config::{Config, ConfigView};
use crate::mappings::Filetype;
use crate::rpc::activity::{buttons_view, ActivityAssets, ActivityButton, AssetsView, ButtonView};
use crate::rpc::packet::{Activity, ActivityView};
use crate::util::git::{find_git_repository, git_repository};
use crate::util::text::{
    borrowed_view, fill, filled, optional_view, same_text, signed_decimal, signed_decimal_text,
    starts_with, texts_view,
};
use crate::util::workspace::{nearest_workspace, workspace_candidates, workspace_of};
use vstd::prelude::*;
use vstd::string::*;
use vstd::utf8::encode_utf8;

verus! {

/// Where the images of the presence are kept.
pub const GITHUB_ASSETS_URL: &'static str =
    "http://raw.githubusercontent.com/vyfor/cord.nvim/master/assets";

/// The version of the images, which their addresses carry.
pub const ASSETS_VERSION: &'static str = "8";

/// The address of the image `file` of the group `path`.
pub open spec fn asset(path: Seq<char>, file: Seq<char>) -> Seq<char> {
    GITHUB_ASSETS_URL@ + "/"@ + path + "/"@ + file + ".png?v="@ + ASSETS_VERSION@
}

/// The address of the image `file` of the group `path`.
pub fn get_asset(path: &str, file: &str) -> (address: String)
    ensures
        address@ == asset(path@, file@),
{
    let mut address = GITHUB_ASSETS_URL.to_owned();
    address.append("/");
    address.append(path);
    address.append("/");
    address.append(file);
    address.append(".png?v=");
    address.append(ASSETS_VERSION);
    address
}

/// `text`, with spaces after it where it is shorter than `width` characters.
pub open spec fn pad_right(text: Seq<char>, width: nat) -> Seq<char> {
    if text.len() < width {
        text + Seq::new((width - text.len()) as nat, |i: int| ' ')
    } else {
        text
    }
}

/// The caption of the large image: `text`, which is made two characters wide
/// where it takes less than two bytes.
pub open spec fn large_caption(text: Seq<char>) -> Seq<char> {
    if encode_utf8(text).len() < 2 {
        pad_right(text, 2)
    } else {
        text
    }
}

/// The line about the workspace: the template of the settings filled with
/// `cwd`, followed by the number of problems unless that number is -1. There
/// is no such line where `cwd` or the template is empty.
pub open spec fn presence_state(config: ConfigView, cwd: Seq<char>, problem_count: int) -> Option<
    Seq<char>,
> {
    if cwd.len() > 0 && config.workspace_text.len() > 0 {
        let named = fill(config.workspace_text, cwd);
        Some(
            if problem_count != -1 {
                named + " - "@ + signed_decimal(problem_count) + " problems"@
            } else {
                named
            },
        )
    } else {
        None
    }
}

/// The activity that is announced for a buffer.
///
/// `details` and the line about the workspace are its two lines, in this order
/// unless `swap_fields` is set. The large image is `large_image`, with the
/// editor's image as the small one; without a `large_image` the editor's image
/// is the large one and there is no small one.
pub open spec fn activity_of(
    config: ConfigView,
    details: Seq<char>,
    large_image: Option<Seq<char>>,
    large_text: Seq<char>,
    problem_count: int,
    timestamp: Option<u128>,
    swap_fields: bool,
) -> ActivityView {
    let state = presence_state(config, config.workspace, problem_count);
    ActivityView {
        state: if swap_fields {
            Some(details)
        } else {
            state
        },
        details: if swap_fields {
            state
        } else {
            Some(details)
        },
        assets: Some(
            AssetsView {
                large_image: Some(
                    match large_image {
                        Some(image) => image,
                        None => config.editor_image,
                    },
                ),
                large_text: Some(large_caption(large_text)),
                small_image: if large_image is Some {
                    Some(config.editor_image)
                } else {
                    None
                },
                small_text: if config.editor_tooltip.len() > 0 {
                    Some(config.editor_tooltip)
                } else {
                    None
                },
            },
        ),
        timestamp: timestamp,
        buttons: if config.buttons.len() > 0 {
            Some(config.buttons)
        } else {
            None
        },
    }
}

/// The moment that `timestamp` refers to, if any.
pub open spec fn moment(timestamp: Option<&u128>) -> Option<u128> {
    match timestamp {
        Some(t) => Some(*t),
        None => None,
    }
}

/// `text`, with spaces after it where it is shorter than `width` characters.
fn padded_right(text: String, width: usize) -> (out: String)
    ensures
        out@ == pad_right(text@, width as nat),
{
    let n: usize = text.as_str().unicode_len();
    let ghost given = text@;
    let mut out = text;
    let mut k: usize = n;
    while k < width
        invariant
            n == given.len(),
            n <= k,
            k <= width || k == n,
            out@ == given + Seq::new((k - n) as nat, |i: int| ' '),
        decreases width - k,
    {
        proof {
            reveal_strlit(" ");
        }
        out.append(" ");
        k += 1;
    }
    out
}

/// A copy of `buttons`.
fn buttons_copy(buttons: &Vec<ActivityButton>) -> (copy: Vec<ActivityButton>)
    ensures
        buttons_view(copy@) == buttons_view(buttons@),
{
    let mut copy: Vec<ActivityButton> = Vec::new();
    let mut i: usize = 0;
    while i < buttons.len()
        invariant
            i <= buttons@.len(),
            copy@.len() == i,
            forall|j: int| 0 <= j < i ==> copy@[j]@ == buttons@[j]@,
        decreases buttons.len() - i,
    {
        let button = ActivityButton { label: buttons[i].label.clone(), url: buttons[i].url.clone() };
        copy.push(button);
        i += 1;
    }
    copy
}

/// The line about the workspace `cwd`, with the number of problems unless
/// that number is -1.
pub fn get_presence_state(config: &Config, cwd: &str, problem_count: i32) -> (state: Option<String>)
    ensures
        optional_view(state) == presence_state(config@, cwd@, problem_count as int),
{
    if !cwd.is_empty() && !config.workspace_text.as_str().is_empty() {
        let mut state = filled(config.workspace_text.as_str(), cwd);
        if problem_count != -1 {
            state.append(" - ");
            state.append(signed_decimal_text(problem_count).as_str());
            state.append(" problems");
        }
        Some(state)
    } else {
        None
    }
}

/// The activity that is announced for a buffer, from the settings and the
/// texts and image that were chosen for the buffer.
pub fn build_activity(
    config: &Config,
    details: String,
    large_image: Option<String>,
    large_text: String,
    problem_count: i32,
    timestamp: Option<&u128>,
    swap_fields: bool,
) -> (activity: Activity)
    ensures
        activity@ == activity_of(
            config@,
            details@,
            optional_view(large_image),
            large_text@,
            problem_count as int,
            moment(timestamp),
            swap_fields,
        ),
{
    let workspace_line = get_presence_state(config, config.workspace.as_str(), problem_count);
    let (state, details) = if swap_fields {
        (Some(details), workspace_line)
    } else {
        (workspace_line, Some(details))
    };
    let small_image = if large_image.is_some() {
        Some(config.editor_image.clone())
    } else {
        None
    };
    let small_text = if !config.editor_tooltip.as_str().is_empty() {
        Some(config.editor_tooltip.clone())
    } else {
        None
    };
    let large_image = match large_image {
        Some(image) => Some(image),
        None => Some(config.editor_image.clone()),
    };
    let large_text = if large_text.as_str().as_bytes().len() < 2 {
        padded_right(large_text, 2)
    } else {
        large_text
    };
    let buttons = if !config.buttons.is_empty() {
        Some(buttons_copy(&config.buttons))
    } else {
        None
    };
    Activity {
        state: state,
        details: details,
        assets: Some(
            ActivityAssets {
                large_image: large_image,
                large_text: Some(large_text),
                small_image: small_image,
                small_text: small_text,
            },
        ),
        timestamp: match timestamp {
            Some(t) => Some(*t),
            None => None,
        },
        buttons: buttons,
    }
}

/// Whether one of the two addresses is the word `git`, which stands for the
/// repository of the workspace.
pub open spec fn names_repository(first_url: Seq<char>, second_url: Seq<char>) -> bool {
    first_url == "git"@ || second_url == "git"@
}

/// Whether one of the two addresses is the word `git`: only then is the git
/// configuration of the workspace needed.
pub fn needs_repository(first_url: &str, second_url: &str) -> (needed: bool)
    ensures
        needed == names_repository(first_url@, second_url@),
{
    same_text(first_url, "git") || same_text(second_url, "git")
}

/// The address that a button opens: `url`, or the repository where `url` is
/// the word `git` and a repository is known.
pub open spec fn button_url(url: Seq<char>, repository: Option<Seq<char>>) -> Seq<char> {
    match repository {
        Some(address) if url == "git"@ => address,
        _ => url,
    }
}

/// Whether a button can be shown: it has a caption, and its address starts
/// with `http`.
pub open spec fn button_is_valid(button: ButtonView) -> bool {
    button.label.len() > 0 && button.url.len() > 0 && "http"@.is_prefix_of(button.url)
}

/// `button` alone where it can be shown, else nothing.
pub open spec fn shown(button: ButtonView) -> Seq<ButtonView> {
    if button_is_valid(button) {
        seq![button]
    } else {
        seq![]
    }
}

/// The buttons that are shown, of the two that the settings describe.
pub open spec fn valid_buttons(
    first_label: Seq<char>,
    first_url: Seq<char>,
    second_label: Seq<char>,
    second_url: Seq<char>,
    repository: Option<Seq<char>>,
) -> Seq<ButtonView> {
    shown(ButtonView { label: first_label, url: button_url(first_url, repository) }) + shown(
        ButtonView { label: second_label, url: button_url(second_url, repository) },
    )
}

/// The buttons that are shown, of the two that the settings describe.
///
/// An address that is the word `git` stands for the repository of the
/// workspace, which `git_config` names: the lines of the workspace's git
/// configuration in order, none where it has no such file. The lines are
/// read only where [`needs_repository`] holds of the two addresses.
pub fn validate_buttons(
    first_label: String,
    first_url: String,
    second_label: String,
    second_url: String,
    git_config: &Vec<String>,
) -> (buttons: Vec<ActivityButton>)
    ensures
        buttons_view(buttons@) == valid_buttons(
            first_label@,
            first_url@,
            second_label@,
            second_url@,
            git_repository(texts_view(git_config@)),
        ),
{
    let mut first_url = first_url;
    let mut second_url = second_url;
    let first_is_git = same_text(first_url.as_str(), "git");
    let second_is_git = same_text(second_url.as_str(), "git");
    if needs_repository(first_url.as_str(), second_url.as_str()) {
        match find_git_repository(git_config) {
            Some(address) => {
                if first_is_git {
                    first_url = address.clone();
                }
                if second_is_git {
                    second_url = address;
                }
            },
            None => {},
        }
    }
    let mut buttons: Vec<ActivityButton> = Vec::with_capacity(2);
    if !first_label.as_str().is_empty() && !first_url.as_str().is_empty() && starts_with(
        first_url.as_str(),
        "http",
    ) {
        buttons.push(ActivityButton { label: first_label, url: first_url });
    }
    if !second_label.as_str().is_empty() && !second_url.as_str().is_empty() && starts_with(
        second_url.as_str(),
        "http",
    ) {
        buttons.push(ActivityButton { label: second_label, url: second_url });
    }
    buttons
}

/// The presence of a file that is edited or viewed: the line that names it,
/// the address of its image, and its tooltip.
///
/// The line is the template for viewing or for editing, filled with the
/// file's name, or with `a new file` where it has none, and followed by the
/// cursor's position where one is given. A buffer of the type `Cord.new` has
/// no image of its own.
pub open spec fn language_of(
    config: ConfigView,
    filename: Seq<char>,
    filetype: Seq<char>,
    is_read_only: bool,
    cursor_position: Option<Seq<char>>,
    icon: Seq<char>,
    tooltip: Seq<char>,
) -> (Seq<char>, Option<Seq<char>>, Seq<char>) {
    let name = if filename.len() == 0 {
        "a new file"@
    } else {
        filename
    };
    let details = fill(
        if is_read_only {
            config.viewing_text
        } else {
            config.editing_text
        },
        name,
    );
    (
        match cursor_position {
            Some(position) => details + ":"@ + position,
            None => details,
        },
        if filetype == "Cord.new"@ {
            None
        } else {
            Some(asset("language"@, icon))
        },
        tooltip,
    )
}

/// The presence of a tool that is open in place of a file: `template` filled
/// with the tool's name, the address of its image in `group`, and its name.
pub open spec fn tool_of(
    template: Seq<char>,
    group: Seq<char>,
    icon: Seq<char>,
    tooltip: Seq<char>,
) -> (Seq<char>, Seq<char>, Seq<char>) {
    (fill(template, tooltip), asset(group, icon), tooltip)
}

/// The presence of a buffer of the given kind: its line, the address of its
/// image where it has one, and its tooltip.
pub open spec fn presence_of(
    config: ConfigView,
    filename: Seq<char>,
    filetype: Seq<char>,
    is_read_only: bool,
    cursor_position: Option<Seq<char>>,
    kind: Filetype,
) -> (Seq<char>, Option<Seq<char>>, Seq<char>) {
    match kind {
        Filetype::Language(icon, tooltip) => language_of(
            config,
            filename,
            filetype,
            is_read_only,
            cursor_position,
            icon@,
            tooltip@,
        ),
        Filetype::FileBrowser(icon, tooltip) => {
            let tool = tool_of(config.file_browser_text, "file_browser"@, icon@, tooltip@);
            (tool.0, Some(tool.1), tool.2)
        },
        Filetype::PluginManager(icon, tooltip) => {
            let tool = tool_of(config.plugin_manager_text, "plugin_manager"@, icon@, tooltip@);
            (tool.0, Some(tool.1), tool.2)
        },
        Filetype::LSP(icon, tooltip) => {
            let tool = tool_of(config.lsp_manager_text, "lsp_manager"@, icon@, tooltip@);
            (tool.0, Some(tool.1), tool.2)
        },
    }
}

/// The presence of a buffer: its line, the address of its image where it has
/// one, and its tooltip. `kind` says what the buffer's type and name stand
/// for, with the icon and the tooltip that go with it.
pub fn build_presence(
    config: &Config,
    filename: &str,
    filetype: &str,
    is_read_only: bool,
    cursor_position: Option<&str>,
    kind: Filetype<'_>,
) -> (presence: (String, Option<String>, String))
    ensures
        (presence.0@, optional_view(presence.1), presence.2@) == presence_of(
            config@,
            filename@,
            filetype@,
            is_read_only,
            borrowed_view(cursor_position),
            kind,
        ),
{
    match kind {
        Filetype::Language(icon, tooltip) => language_presence(
            config,
            filename,
            filetype,
            is_read_only,
            cursor_position,
            icon,
            tooltip,
        ),
        Filetype::FileBrowser(icon, tooltip) => {
            let (details, icon, tooltip) = file_browser_presence(config, tooltip, icon);
            (details, Some(icon), tooltip)
        },
        Filetype::PluginManager(icon, tooltip) => {
            let (details, icon, tooltip) = plugin_manager_presence(config, tooltip, icon);
            (details, Some(icon), tooltip)
        },
        Filetype::LSP(icon, tooltip) => {
            let (details, icon, tooltip) = lsp_manager_presence(config, tooltip, icon);
            (details, Some(icon), tooltip)
        },
    }
}

/// The presence of a file that is edited or viewed.
fn language_presence(
    config: &Config,
    filename: &str,
    filetype: &str,
    is_read_only: bool,
    cursor_position: Option<&str>,
    icon: &str,
    tooltip: &str,
) -> (presence: (String, Option<String>, String))
    ensures
        (presence.0@, optional_view(presence.1), presence.2@) == language_of(
            config@,
            filename@,
            filetype@,
            is_read_only,
            borrowed_view(cursor_position),
            icon@,
            tooltip@,
        ),
{
    let name = if filename.is_empty() {
        "a new file"
    } else {
        filename
    };
    let mut details = if is_read_only {
        filled(config.viewing_text.as_str(), name)
    } else {
        filled(config.editing_text.as_str(), name)
    };
    match cursor_position {
        Some(position) => {
            details.append(":");
            details.append(position);
        },
        None => {},
    }
    let image = if same_text(filetype, "Cord.new") {
        None
    } else {
        Some(get_asset("language", icon))
    };
    (details, image, tooltip.to_owned())
}

/// The presence of a file browser.
fn file_browser_presence(config: &Config, tooltip: &str, icon: &str) -> (presence: (
    String,
    String,
    String,
))
    ensures
        (presence.0@, presence.1@, presence.2@) == tool_of(
            config@.file_browser_text,
            "file_browser"@,
            icon@,
            tooltip@,
        ),
{
    (
        filled(config.file_browser_text.as_str(), tooltip),
        get_asset("file_browser", icon),
        tooltip.to_owned(),
    )
}

/// The presence of a plugin manager.
fn plugin_manager_presence(config: &Config, tooltip: &str, icon: &str) -> (presence: (
    String,
    String,
    String,
))
    ensures
        (presence.0@, presence.1@, presence.2@) == tool_of(
            config@.plugin_manager_text,
            "plugin_manager"@,
            icon@,
            tooltip@,
        ),
{
    (
        filled(config.plugin_manager_text.as_str(), tooltip),
        get_asset("plugin_manager", icon),
        tooltip.to_owned(),
    )
}

/// The presence of a manager of language servers.
fn lsp_manager_presence(config: &Config, tooltip: &str, icon: &str) -> (presence: (
    String,
    String,
    String,
))
    ensures
        (presence.0@, presence.1@, presence.2@) == tool_of(
            config@.lsp_manager_text,
            "lsp_manager"@,
            icon@,
            tooltip@,
        ),
{
    (
        filled(config.lsp_manager_text.as_str(), tooltip),
        get_asset("lsp_manager", icon),
        tooltip.to_owned(),
    )
}

/// The root of the workspace that `initial_path` lies in: the nearest
/// directory, from `initial_path` upwards, that holds `.git`, `.svn` or `.hg`,
/// and `initial_path` itself where none does.
///
/// `existing` names the marker directories that exist, of those that
/// [`marker_paths`] gives for each of the [`workspace_candidates`].
pub fn find_workspace(initial_path: &str, existing: &Vec<String>) -> (workspace: String)
    ensures
        workspace@ == workspace_of(initial_path@, texts_view(existing@)),
{
    let dirs = workspace_candidates(initial_path);
    match nearest_workspace(&dirs, existing) {
        Some(dir) => dir,
        None => initial_path.to_owned(),
    }
}

} // verus!
