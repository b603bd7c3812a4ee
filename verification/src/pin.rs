//! The fixed configuration of the task: what is fetched, what is built and
//! what is vendored. Nothing here is computed or read from the environment.

use vstd::prelude::*;
use vstd::string::*;

verus! {

/// Repository the native sources are fetched from.
pub const REPOSITORY: &'static str = "https://github.com/wpilibsuite/allwpilib";

/// Release tag the fetch is pinned to. It is never a branch.
pub const RELEASE: &'static str = "v2022.4.1";

/// Directory, inside the workspace, that the fetch creates.
pub const CHECKOUT: &'static str = "allwpilib";

/// Prefix of the ephemeral workspace's name.
pub const WORKSPACE_PREFIX: &'static str = "wpilib-rs";

/// Directory under the repository root that holds the crates.
pub const CRATES_DIR: &'static str = "lib";

/// The crate that receives the vendored headers and the stamp.
pub const BINDING_CRATE: &'static str = "wpilib-sys";

/// Directory of the binding crate that receives the headers.
pub const INCLUDE_DIR: &'static str = "include";

/// Directory of the binding crate that holds its sources.
pub const SOURCE_DIR: &'static str = "src";

/// Name of the generated source file that carries the stamp.
pub const STAMP_FILE: &'static str = "version.rs";

/// Entry point of the fetched project's build system.
pub const BUILD_TOOL: &'static str = "./gradlew";

/// Build target that installs the cross-compilation toolchain.
pub const TOOLCHAIN_TARGET: &'static str = "installRoboRioToolchain";

/// Build target that produces the release shared library.
pub const LIBRARY_TARGET: &'static str = "halLinuxathenaReleaseSharedLibrary";

/// Flag that lets the build system reuse its own cache.
pub const BUILD_CACHE_FLAG: &'static str = "--build-cache";

/// Hand-written headers of the hardware layer.
pub const HAL_HEADERS: &'static str = "hal/src/main/native/include/hal";

/// Headers of the hardware layer that the build generates.
pub const HAL_GENERATED_HEADERS: &'static str = "hal/build/generated/headers/hal";

/// Headers of the utility component.
pub const UTIL_HEADERS: &'static str = "wpiutil/src/main/native/include/wpi";

/// The directories of the fetched tree that are vendored, in the order in
/// which they are copied.
pub open spec fn allow_list() -> Seq<Seq<char>> {
    seq![HAL_HEADERS@, HAL_GENERATED_HEADERS@, UTIL_HEADERS@]
}

/// The allow-list, in the order in which its entries are copied.
pub fn allow_listed() -> (res: Vec<&'static str>)
    ensures
        res.deep_view() == allow_list(),
{
    let mut res: Vec<&'static str> = Vec::new();
    res.push(HAL_HEADERS);
    res.push(HAL_GENERATED_HEADERS);
    res.push(UTIL_HEADERS);
    assert(res.deep_view() =~= allow_list());
    res
}

} // verus!
