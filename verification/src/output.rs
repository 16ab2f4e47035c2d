//! Output formatting. The command itself is the only thing the
//! surrounding program ever writes to standard output; these functions
//! produce the text.

use vstd::prelude::*;
use crate::cli::ColorChoice;
use crate::config::Config;
use crate::config_file::opt_str_view;
use crate::strutil::{dec_digits, trim_spec, trim_to_string, u64_to_string};

verus! {

/// Formats the placeholder line naming the instruction.
pub fn format_output(config: &Config) -> (r: String)
    ensures
        r@ == "Command would be generated for: "@ + config.instruction@,
{
    let mut s = String::new();
    s.append("Command would be generated for: ");
    s.append(config.instruction.as_str());
    s
}

/// The rendering of an optional string field.
pub open spec fn opt_field_spec(o: Option<Seq<char>>) -> Seq<char> {
    match o {
        Some(v) => "Some(\""@ + v + "\")"@,
        None => "None"@,
    }
}

fn opt_field(o: &Option<String>) -> (r: String)
    ensures
        r@ == opt_field_spec(opt_str_view(*o)),
{
    match o {
        Some(v) => {
            let mut s = String::new();
            s.append("Some(\"");
            s.append(v.as_str());
            s.append("\")");
            s
        },
        None => "None".to_owned(),
    }
}

/// The rendering of a flag.
pub open spec fn bool_spec(b: bool) -> Seq<char> {
    if b {
        "true"@
    } else {
        "false"@
    }
}

fn bool_str(b: bool) -> (r: &'static str)
    ensures
        r@ == bool_spec(b),
{
    if b {
        "true"
    } else {
        "false"
    }
}

/// The rendering of a color choice.
pub open spec fn color_choice_spec(c: ColorChoice) -> Seq<char> {
    match c {
        ColorChoice::Auto => "Auto"@,
        ColorChoice::Always => "Always"@,
        ColorChoice::Never => "Never"@,
    }
}

fn color_choice_str(c: ColorChoice) -> (r: &'static str)
    ensures
        r@ == color_choice_spec(c),
{
    match c {
        ColorChoice::Auto => "Auto",
        ColorChoice::Always => "Always",
        ColorChoice::Never => "Never",
    }
}

/// The debug rendering of a configuration: every field, named, in
/// declaration order.
pub open spec fn config_debug_spec(c: Config) -> Seq<char> {
    "Parsed config: Config { instruction: \""@ + c.instruction@ + "\", model: "@ + opt_field_spec(
        opt_str_view(c.model),
    ) + ", provider: "@ + opt_field_spec(opt_str_view(c.provider)) + ", quiet: "@ + bool_spec(
        c.quiet,
    ) + ", verbose: "@ + dec_digits(c.verbose as int) + ", no_color: "@ + bool_spec(c.no_color)
        + ", color: "@ + color_choice_spec(c.color) + ", interactive: "@ + bool_spec(
        c.interactive,
    ) + ", force: "@ + bool_spec(c.force) + ", dry_run: "@ + bool_spec(c.dry_run) + ", context: "@
        + opt_field_spec(opt_str_view(c.context)) + ", offline: "@ + bool_spec(c.offline)
        + ", num_options: "@ + dec_digits(c.num_options as int) + ", debug: "@ + bool_spec(c.debug)
        + ", debug_log_file: "@ + opt_field_spec(opt_str_view(c.debug_log_file)) + " }"@
}

/// Renders the configuration for diagnostic output, every field named.
pub fn format_config_debug(config: &Config) -> (r: String)
    ensures
        r@ == config_debug_spec(*config),
{
    let mut s = String::new();
    s.append("Parsed config: Config { instruction: \"");
    s.append(config.instruction.as_str());
    s.append("\", model: ");
    let p = opt_field(&config.model);
    s.append(p.as_str());
    s.append(", provider: ");
    let p = opt_field(&config.provider);
    s.append(p.as_str());
    s.append(", quiet: ");
    s.append(bool_str(config.quiet));
    s.append(", verbose: ");
    let p = u64_to_string(config.verbose as u64);
    s.append(p.as_str());
    s.append(", no_color: ");
    s.append(bool_str(config.no_color));
    s.append(", color: ");
    s.append(color_choice_str(config.color));
    s.append(", interactive: ");
    s.append(bool_str(config.interactive));
    s.append(", force: ");
    s.append(bool_str(config.force));
    s.append(", dry_run: ");
    s.append(bool_str(config.dry_run));
    s.append(", context: ");
    let p = opt_field(&config.context);
    s.append(p.as_str());
    s.append(", offline: ");
    s.append(bool_str(config.offline));
    s.append(", num_options: ");
    let p = u64_to_string(config.num_options as u64);
    s.append(p.as_str());
    s.append(", debug: ");
    s.append(bool_str(config.debug));
    s.append(", debug_log_file: ");
    let p = opt_field(&config.debug_log_file);
    s.append(p.as_str());
    s.append(" }");
    s
}

/// What is written for a command: the trimmed command, with a trailing
/// newline only when standard output is a terminal (piped output stays
/// clean for further processing).
pub open spec fn command_output_spec(command: Seq<char>, stdout_tty: bool) -> Seq<char> {
    if stdout_tty {
        trim_spec(command) + "\n"@
    } else {
        trim_spec(command)
    }
}

/// The exact text to write to standard output for a command, given the
/// terminal state of standard output. The caller writes it verbatim.
pub fn format_command_output(command: &str, stdout_tty: bool) -> (r: String)
    ensures
        r@ == command_output_spec(command@, stdout_tty),
{
    let mut s = trim_to_string(command);
    if stdout_tty {
        s.append("\n");
    }
    s
}

} // verus!
