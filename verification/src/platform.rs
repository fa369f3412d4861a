use vstd::prelude::*;

verus! {

/// The null output device of the platform.
pub open spec fn null_device_spec(windows: bool) -> Seq<char> {
    if windows { "NUL"@ } else { "/dev/null"@ }
}

/// The program path to run for a media tool: the configured override when
/// there is one, else the tool's name (with `.exe` on Windows), found on `PATH`.
pub open spec fn tool_path_spec(configured: Option<Seq<char>>, program: Seq<char>, windows: bool) -> Seq<char> {
    match configured {
        Some(path) => path,
        None => if windows { program + ".exe"@ } else { program },
    }
}

/// The path of the null output device: `NUL` on Windows, `/dev/null` elsewhere.
pub fn null_device(windows: bool) -> (device: &'static str)
    ensures
        device@ == null_device_spec(windows),
        windows ==> device@ == "NUL"@,
        !windows ==> device@ == "/dev/null"@,
{
    if windows { "NUL" } else { "/dev/null" }
}

/// The program path for a media tool (`ffmpeg`, `ffprobe`): the configured
/// override if any, else the program name, with `.exe` on Windows.
pub fn resolve_tool_path(configured: Option<String>, program: &str, windows: bool) -> (path: String)
    ensures
        path@ == tool_path_spec(
            match configured { Some(p) => Some(p@), None => None },
            program@,
            windows,
        ),
        configured matches Some(p) ==> path@ == p@,
        configured is None && windows ==> path@ == program@ + ".exe"@,
        configured is None && !windows ==> path@ == program@,
{
    match configured {
        Some(path) => path,
        None => {
            let mut path = String::from_str(program);
            if windows {
                path.append(".exe");
            }
            path
        },
    }
}

/// What a finished compression reports back: where the output went and how
/// large it is.
#[derive(Debug)]
pub struct CompressionResult {
    pub output_path: String,
    pub output_size_bytes: u64,
}

} // verus!
