use maa_se::archive::is_safe_entry;

#[test]
fn entries_below_the_directory_are_safe() {
    for name in [
        "",
        "a",
        "a/b/c.txt",
        "resource/tasks.json",
        "MaaResource-main/cache/x",
        "a/",
        "./a",
        "a/./b",
        "a/../b",
        "a/b/../../c",
        "a/..",
        "a\\b",
        "a//b",
        "...",
        "..a",
        "a..",
        ".../x",
        "a/.../..",
        "文件/资源.json",
    ] {
        assert!(is_safe_entry(name), "{:?}", name);
    }
}

#[test]
fn entries_that_leave_the_directory_are_refused() {
    for name in [
        "..",
        "../",
        "../a",
        "a/../..",
        "a/../../b",
        "a/b/../../../c",
        "./..",
        "a\\..\\..\\b",
        "..\\windows",
        "a/../../b/c/d",
        "x/./../..",
        ".//..",
    ] {
        assert!(!is_safe_entry(name), "{:?}", name);
    }
}

#[test]
fn absolute_entries_are_refused() {
    for name in ["/", "/etc/passwd", "\\\\server\\share", "\\a", "C:\\a", "C:a", "c:/a", "C:"] {
        assert!(!is_safe_entry(name), "{:?}", name);
    }
}
