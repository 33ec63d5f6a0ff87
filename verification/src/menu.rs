//! The menu configuration and the command line that it stands for.

use crate::decimal::{append_decimal, decimal};
use vstd::prelude::*;
use vstd::string::StringExecFns;
use vstd::utf8::encode_utf8;

verus! {

/// A colour, given as the text that the menu program understands, such as
/// `#1e1e2e`. The text is handed on as it is.
#[derive(PartialEq, PartialOrd, Ord, Eq, Debug)]
pub struct Color<'a>(pub &'a str);

impl<'a> Clone for Color<'a> {
    fn clone(&self) -> (copy: Self)
        ensures
            copy == *self,
    {
        Color(self.0)
    }
}

/// The settings of one menu call.
///
/// A value starts out from [`DMenu::default`] and is refined by the builder
/// methods, each of which takes the value and gives back one that differs in
/// the fields it names and in nothing else.
#[derive(Debug, PartialOrd, PartialEq, Ord, Eq)]
pub struct DMenu<'a> {
    on_top: bool,
    case_insensitive: bool,
    vertical_lines: Option<i32>,
    monitor: Option<i32>,
    prompt: Option<&'a str>,
    font: Option<&'a str>,
    normal_background_color: Option<Color<'a>>,
    normal_foreground_color: Option<Color<'a>>,
    selected_background_color: Option<Color<'a>>,
    selected_foreground_color: Option<Color<'a>>,
}

/// What a [`DMenu`] holds, as mathematical values.
pub struct DMenuView {
    pub on_top: bool,
    pub case_insensitive: bool,
    pub vertical_lines: Option<i32>,
    pub monitor: Option<i32>,
    pub prompt: Option<Seq<char>>,
    pub font: Option<Seq<char>>,
    pub normal_background_color: Option<Seq<char>>,
    pub normal_foreground_color: Option<Seq<char>>,
    pub selected_background_color: Option<Seq<char>>,
    pub selected_foreground_color: Option<Seq<char>>,
}

/// The text of an optional string.
pub open spec fn text_of(value: Option<&str>) -> Option<Seq<char>> {
    match value {
        Some(text) => Some(text@),
        None => None,
    }
}

/// The text of an optional colour.
pub open spec fn color_text(value: Option<Color<'_>>) -> Option<Seq<char>> {
    match value {
        Some(color) => Some(color.0@),
        None => None,
    }
}

/// A flag that is either present or absent: ` name` when `present`, nothing
/// otherwise.
pub open spec fn switch_flag(name: Seq<char>, present: bool) -> Seq<char> {
    if present {
        seq![' '] + name
    } else {
        Seq::empty()
    }
}

/// A flag with a number: ` name n` in decimal notation when a number is set,
/// nothing otherwise.
pub open spec fn number_flag(name: Seq<char>, value: Option<i32>) -> Seq<char> {
    match value {
        Some(n) => seq![' '] + name + seq![' '] + decimal(n as int),
        None => Seq::empty(),
    }
}

/// A flag with a text: ` name 'text'` when a text is set, nothing otherwise.
/// The text stands between single quotes exactly as it was given; a quote
/// inside it is not escaped.
pub open spec fn quoted_flag(name: Seq<char>, value: Option<Seq<char>>) -> Seq<char> {
    match value {
        Some(text) => seq![' '] + name + seq![' ', '\''] + text + seq!['\''],
        None => Seq::empty(),
    }
}

impl DMenuView {
    /// The configuration that every menu starts from: shown at the top, case
    /// sensitive, and nothing else set.
    pub open spec fn initial() -> DMenuView {
        DMenuView {
            on_top: true,
            case_insensitive: false,
            vertical_lines: None,
            monitor: None,
            prompt: None,
            font: None,
            normal_background_color: None,
            normal_foreground_color: None,
            selected_background_color: None,
            selected_foreground_color: None,
        }
    }

    /// The command line of the menu program for this configuration: the
    /// program's name, then one flag for each field that is set, always in
    /// the same order.
    pub open spec fn command_line(self) -> Seq<char> {
        "dmenu"@
            + switch_flag("-b"@, !self.on_top)
            + switch_flag("-i"@, self.case_insensitive)
            + number_flag("-l"@, self.vertical_lines)
            + number_flag("-m"@, self.monitor)
            + quoted_flag("-p"@, self.prompt)
            + quoted_flag("-fn"@, self.font)
            + quoted_flag("-nb"@, self.normal_background_color)
            + quoted_flag("-nf"@, self.normal_foreground_color)
            + quoted_flag("-sb"@, self.selected_background_color)
            + quoted_flag("-sf"@, self.selected_foreground_color)
    }
}

/// Determinism: a configuration has one command line. Two renderings of the
/// same configuration are the same text, and so the same bytes.
pub proof fn lemma_rendering_is_deterministic(menu: DMenu<'_>, first: String, second: String)
    requires
        first@ == menu@.command_line(),
        second@ == menu@.command_line(),
    ensures
        first@ == second@,
        encode_utf8(first@) == encode_utf8(second@),
{
}

/// Omission: a field adds its flag to the command line exactly if it was
/// set. A field that is as `DMenu::default` left it adds nothing, and the
/// configuration that sets nothing is the bare name of the program.
pub proof fn lemma_unset_fields_add_no_flag(config: DMenuView)
    ensures
        config.on_top <==> switch_flag("-b"@, !config.on_top).len() == 0,
        !config.case_insensitive <==> switch_flag("-i"@, config.case_insensitive).len() == 0,
        config.vertical_lines is None <==> number_flag("-l"@, config.vertical_lines).len() == 0,
        config.monitor is None <==> number_flag("-m"@, config.monitor).len() == 0,
        config.prompt is None <==> quoted_flag("-p"@, config.prompt).len() == 0,
        config.font is None <==> quoted_flag("-fn"@, config.font).len() == 0,
        config.normal_background_color is None <==> quoted_flag(
            "-nb"@,
            config.normal_background_color,
        ).len() == 0,
        config.normal_foreground_color is None <==> quoted_flag(
            "-nf"@,
            config.normal_foreground_color,
        ).len() == 0,
        config.selected_background_color is None <==> quoted_flag(
            "-sb"@,
            config.selected_background_color,
        ).len() == 0,
        config.selected_foreground_color is None <==> quoted_flag(
            "-sf"@,
            config.selected_foreground_color,
        ).len() == 0,
        DMenuView::initial().command_line() == "dmenu"@,
{
    assert(DMenuView::initial().command_line() =~= "dmenu"@);
}

impl<'a> View for DMenu<'a> {
    type V = DMenuView;

    closed spec fn view(&self) -> DMenuView {
        DMenuView {
            on_top: self.on_top,
            case_insensitive: self.case_insensitive,
            vertical_lines: self.vertical_lines,
            monitor: self.monitor,
            prompt: text_of(self.prompt),
            font: text_of(self.font),
            normal_background_color: color_text(self.normal_background_color),
            normal_foreground_color: color_text(self.normal_foreground_color),
            selected_background_color: color_text(self.selected_background_color),
            selected_foreground_color: color_text(self.selected_foreground_color),
        }
    }
}

impl<'a> Clone for DMenu<'a> {
    fn clone(&self) -> (copy: Self)
        ensures
            copy == *self,
    {
        DMenu {
            on_top: self.on_top,
            case_insensitive: self.case_insensitive,
            vertical_lines: self.vertical_lines,
            monitor: self.monitor,
            prompt: self.prompt,
            font: self.font,
            normal_background_color: self.normal_background_color.clone(),
            normal_foreground_color: self.normal_foreground_color.clone(),
            selected_background_color: self.selected_background_color.clone(),
            selected_foreground_color: self.selected_foreground_color.clone(),
        }
    }
}

impl<'a> Default for DMenu<'a> {
    /// A menu at the top of the screen, case sensitive, with every other
    /// setting left to the menu program.
    fn default() -> (menu: Self)
        ensures
            menu@ == DMenuView::initial(),
    {
        DMenu {
            on_top: true,
            case_insensitive: false,
            vertical_lines: None,
            monitor: None,
            prompt: None,
            font: None,
            normal_background_color: None,
            normal_foreground_color: None,
            selected_background_color: None,
            selected_foreground_color: None,
        }
    }
}

fn append_switch(command: &mut String, name: &str, present: bool)
    ensures
        final(command)@ == old(command)@ + switch_flag(name@, present),
{
    if present {
        proof {
            reveal_strlit(" ");
        }
        command.append(" ");
        command.append(name);
    }
    assert(command@ =~= old(command)@ + switch_flag(name@, present));
}

fn append_number(command: &mut String, name: &str, value: Option<i32>)
    ensures
        final(command)@ == old(command)@ + number_flag(name@, value),
{
    if let Some(n) = value {
        proof {
            reveal_strlit(" ");
        }
        command.append(" ");
        command.append(name);
        command.append(" ");
        append_decimal(command, n);
    }
    assert(command@ =~= old(command)@ + number_flag(name@, value));
}

fn append_quoted(command: &mut String, name: &str, value: Option<&str>)
    ensures
        final(command)@ == old(command)@ + quoted_flag(name@, text_of(value)),
{
    if let Some(text) = value {
        proof {
            reveal_strlit(" ");
            reveal_strlit(" '");
            reveal_strlit("'");
        }
        command.append(" ");
        command.append(name);
        command.append(" '");
        command.append(text);
        command.append("'");
    }
    assert(command@ =~= old(command)@ + quoted_flag(name@, text_of(value)));
}

fn color_str<'a>(value: &Option<Color<'a>>) -> (text: Option<&'a str>)
    ensures
        text_of(text) == color_text(*value),
{
    match value {
        Some(color) => Some(color.0),
        None => None,
    }
}

impl<'a> DMenu<'a> {
    /// Shows the menu at the bottom of the screen instead of the top.
    pub fn display_bottom(self) -> (menu: Self)
        ensures
            menu@ == (DMenuView { on_top: false, ..self@ }),
    {
        let mut menu = self;
        menu.on_top = false;
        menu
    }

    /// Lets the menu match what is typed without regard to case.
    pub fn case_insensitive(self) -> (menu: Self)
        ensures
            menu@ == (DMenuView { case_insensitive: true, ..self@ }),
    {
        let mut menu = self;
        menu.case_insensitive = true;
        menu
    }

    /// Lists the items vertically, `amount` lines at a time. The number is
    /// handed on as it is, whatever its sign.
    pub fn vertical_with_lines(self, amount: i32) -> (menu: Self)
        ensures
            menu@ == (DMenuView { vertical_lines: Some(amount), ..self@ }),
    {
        let mut menu = self;
        menu.vertical_lines = Some(amount);
        menu
    }

    /// Shows the menu on the monitor with the given index, counted from zero.
    /// The number is handed on as it is.
    pub fn display_on_monitor(self, monitor_id: i32) -> (menu: Self)
        ensures
            menu@ == (DMenuView { monitor: Some(monitor_id), ..self@ }),
    {
        let mut menu = self;
        menu.monitor = Some(monitor_id);
        menu
    }

    /// Shows `prompt` to the left of the input field.
    pub fn with_prompt(self, prompt: &'a str) -> (menu: Self)
        ensures
            menu@ == (DMenuView { prompt: Some(prompt@), ..self@ }),
    {
        let mut menu = self;
        menu.prompt = Some(prompt);
        menu
    }

    /// Draws the menu in the given font.
    pub fn with_font(self, font: &'a str) -> (menu: Self)
        ensures
            menu@ == (DMenuView { font: Some(font@), ..self@ }),
    {
        let mut menu = self;
        menu.font = Some(font);
        menu
    }

    /// Sets all four colours at once: background and foreground of the
    /// ordinary items, then background and foreground of the selected one.
    /// A slot given as `None` is left to the menu program, whatever the
    /// configuration held there before.
    pub fn with_colors(
        self,
        normal_background_color: Option<Color<'a>>,
        normal_foreground_color: Option<Color<'a>>,
        selected_background_color: Option<Color<'a>>,
        selected_foreground_color: Option<Color<'a>>,
    ) -> (menu: Self)
        ensures
            menu@ == (DMenuView {
                normal_background_color: color_text(normal_background_color),
                normal_foreground_color: color_text(normal_foreground_color),
                selected_background_color: color_text(selected_background_color),
                selected_foreground_color: color_text(selected_foreground_color),
                ..self@
            }),
    {
        let mut menu = self;
        menu.normal_background_color = normal_background_color;
        menu.normal_foreground_color = normal_foreground_color;
        menu.selected_background_color = selected_background_color;
        menu.selected_foreground_color = selected_foreground_color;
        menu
    }

    /// Renders the configuration as the command line of the menu program.
    pub fn to_command(&self) -> (command: String)
        ensures
            command@ == self@.command_line(),
    {
        let mut command = String::from_str("dmenu");
        append_switch(&mut command, "-b", !self.on_top);
        append_switch(&mut command, "-i", self.case_insensitive);
        append_number(&mut command, "-l", self.vertical_lines);
        append_number(&mut command, "-m", self.monitor);
        append_quoted(&mut command, "-p", self.prompt);
        append_quoted(&mut command, "-fn", self.font);
        append_quoted(&mut command, "-nb", color_str(&self.normal_background_color));
        append_quoted(&mut command, "-nf", color_str(&self.normal_foreground_color));
        append_quoted(&mut command, "-sb", color_str(&self.selected_background_color));
        append_quoted(&mut command, "-sf", color_str(&self.selected_foreground_color));
        command
    }
}

} // verus!
