//! The platform a build runs on, and where external tools are taken from.
use vstd::prelude::*;

verus! {

/// The operating system a build targets.
#[derive(Clone, Copy, PartialEq, Eq, Structural, Debug)]
pub enum TargetOs {
    MacOs,
    Windows,
    Linux,
    Other,
}

/// The processor architecture a build targets.
#[derive(Clone, Copy, PartialEq, Eq, Structural, Debug)]
pub enum TargetArch {
    Aarch64,
    X86_64,
    Other,
}

/// Where an external tool (ffmpeg, yt-dlp, ...) is taken from.
#[derive(Clone, Copy, PartialEq, Eq, Structural, Debug)]
pub enum DependencySource {
    /// The copy the application manages, else the packaged one, else the
    /// system's.
    Auto,
    /// The copy the application manages, with the packaged one as offline
    /// fallback.
    App,
    /// The system's copy only.
    System,
}

pub open spec fn first_of<P>(a: Option<P>, b: Option<P>) -> Option<P> {
    match a {
        Some(x) => Some(x),
        None => b,
    }
}

/// The application-managed copy, else the packaged one, else the system's.
pub fn select_preferred_dependency_path<P>(
    app_managed: Option<P>,
    packaged: Option<P>,
    system: Option<P>,
) -> (r: Option<P>)
    ensures
        r == first_of(first_of(app_managed, packaged), system),
{
    match app_managed {
        Some(p) => Some(p),
        None => match packaged {
            Some(p) => Some(p),
            None => system,
        },
    }
}

/// The copy of a tool to use under a source setting: the system source
/// never falls back to another copy, and the application source never to
/// the system's.
pub fn select_dependency_path_for_source<P>(
    source: &DependencySource,
    app_managed: Option<P>,
    packaged: Option<P>,
    system: Option<P>,
) -> (r: Option<P>)
    ensures
        r == match *source {
            DependencySource::System => system,
            DependencySource::App => first_of(app_managed, packaged),
            DependencySource::Auto => first_of(first_of(app_managed, packaged), system),
        },
{
    match source {
        DependencySource::System => system,
        DependencySource::App => match app_managed {
            Some(p) => Some(p),
            None => packaged,
        },
        DependencySource::Auto => select_preferred_dependency_path(app_managed, packaged, system),
    }
}

} // verus!

verus! {

/// `std::path::Path::join`, read back as text (lossily where it is not
/// UTF-8). Trusted, as documented (`PathBuf::push`): a name of one relative
/// component, other than `.` and `..`, extends the path and so ends the
/// result, and joined to the empty path it is the result. Which separator
/// stands before it depends on the platform and is not stated.
#[verifier::external_body]
fn path_join(base: &str, name: &str) -> (r: String)
    ensures
        crate::live::plain_file_name(name@) ==> crate::text::has_suffix(r@, name@),
        crate::live::plain_file_name(name@) && base@.len() == 0 ==> r@ == name@,
{
    std::path::Path::new(base).join(name).to_string_lossy().to_string()
}

/// The folder of the Chromium extension among the packaged resources.
pub fn chromium_extension_path(resource_dir: &str) -> (r: String)
    ensures
        crate::text::has_suffix(r@, "Youwee-Extension-Chromium"@),
        resource_dir@.len() == 0 ==> r@ == "Youwee-Extension-Chromium"@,
{
    proof {
        reveal_strlit("Youwee-Extension-Chromium");
        reveal_strlit(".");
        reveal_strlit("..");
    }
    path_join(resource_dir, "Youwee-Extension-Chromium")
}

/// The signed Firefox extension among the packaged resources.
pub fn firefox_extension_path(resource_dir: &str) -> (r: String)
    ensures
        crate::text::has_suffix(r@, "Youwee-Extension-Firefox-signed.xpi"@),
        resource_dir@.len() == 0 ==> r@ == "Youwee-Extension-Firefox-signed.xpi"@,
{
    proof {
        reveal_strlit("Youwee-Extension-Firefox-signed.xpi");
        reveal_strlit(".");
        reveal_strlit("..");
    }
    path_join(resource_dir, "Youwee-Extension-Firefox-signed.xpi")
}

} // verus!
