use vstd::prelude::*;
use crate::text::{find, find_from, matches_at, to_chars};

verus! {

/// The version code of the client that this relay works with.
pub const REQUIRED_APK_VERSION_CODE: &'static str = "6";

/// The text that precedes the installed version code in the output of
/// `dumpsys package`.
pub const VERSION_CODE_MARKER: &'static str = "    versionCode=";

/// The version code that `dumpsys package` reports: the text that follows the
/// first `"    versionCode="`, up to the next space. `None` when the marker
/// is absent or no space follows it.
pub open spec fn installed_version_code(dumpsys: Seq<char>) -> Option<Seq<char>> {
    match find(dumpsys, VERSION_CODE_MARKER@) {
        None => None,
        Some(i) => {
            let rest = dumpsys.skip(i + VERSION_CODE_MARKER@.len());
            match find(rest, " "@) {
                None => None,
                Some(j) => Some(rest.take(j)),
            }
        },
    }
}

/// The client must be installed unless the installed version code is the
/// required one.
pub open spec fn needs_install(dumpsys: Seq<char>) -> bool {
    match installed_version_code(dumpsys) {
        Some(code) => code != REQUIRED_APK_VERSION_CODE@,
        None => true,
    }
}

/// Decides from the output of `adb shell dumpsys package` whether the client
/// must be installed: `false` exactly when the installed version code is
/// `REQUIRED_APK_VERSION_CODE`.
pub fn must_install_client(dumpsys: &str) -> (install: bool)
    ensures
        install == needs_install(dumpsys@),
{
    let chars = to_chars(dumpsys);
    let marker = to_chars(VERSION_CODE_MARKER);
    assert(chars@.skip(0) == chars@);
    match find_from(&chars, 0, &marker) {
        None => true,
        Some(index) => {
            proof {
                crate::text::lemma_find_is_first(chars@, marker@);
                let i = find(chars@, marker@)->Some_0;
                assert(crate::text::occurs_at(chars@, marker@, i));
                assert(index == i);
                assert(i + marker@.len() <= chars@.len());
                assert(index + marker.len() <= chars.len());
            }
            let start = index + marker.len();
            let space = to_chars(" ");
            match find_from(&chars, start, &space) {
                None => true,
                Some(end) => {
                    let required = to_chars(REQUIRED_APK_VERSION_CODE);
                    let ghost rest = chars@.skip(start as int);
                    if end == required.len() {
                        let same = matches_at(&chars, start, &required);
                        assert(rest.take(end as int) =~= chars@.subrange(start as int, start + end));
                        !same
                    } else {
                        assert(rest.take(end as int).len() != REQUIRED_APK_VERSION_CODE@.len());
                        true
                    }
                },
            }
        },
    }
}

} // verus!
