use hull::cmd::path;
use nix::fcntl::{open, OFlag};
use nix::sys::stat::Mode;
use nix::unistd::{chdir, close, mkdir, symlinkat};
use std::path::{Path, PathBuf};
use tempdir::TempDir;

fn in_tmpdir<F>(f: F)
where
    F: FnOnce(&TempDir),
{
    let tmpdir = match TempDir::new("test") {
        Ok(n) => n,
        Err(e) => panic!("error: {}", e),
    };
    assert!(chdir(tmpdir.path()).is_ok());

    f(&tmpdir);
    match tmpdir.close() {
        Ok(n) => n,
        Err(e) => panic!("error: {}", e),
    }
}

fn create_dir_all(dir: &Path) {
    let mut missing: Vec<PathBuf> = Vec::new();
    let mut at = Some(dir);
    while let Some(here) = at {
        if here.exists() {
            break;
        }
        missing.push(here.to_path_buf());
        at = here.parent();
    }
    for here in missing.iter().rev() {
        // might get an error in case directory exists. ignore
        let _ = mkdir(here.as_path(), Mode::S_IRWXU);
    }
}

fn create_file(filename: &Path) {
    match open(filename, OFlag::O_CREAT | OFlag::O_WRONLY, Mode::S_IRWXU) {
        Ok(fd) => close(fd).unwrap(),
        Err(e) => panic!("error: {}", e),
    }
}

fn ensure_files_created(root: PathBuf, paths: &[PathBuf]) {
    for path in paths.iter() {
        let filename = &root.join(path);
        if path.to_string_lossy().contains("/") {
            let parent_dir = filename.parent().unwrap();
            create_dir_all(parent_dir);
        }

        if !filename.exists() {
            println!("creating: {}", filename.display());
            create_file(filename);
        }
    }
}

fn check_inputs(inputs: &[[&str; 4]]) {
    for input in inputs.iter() {
        in_tmpdir(|tmp_dir| {
            let binary_path = tmp_dir.path().join(input[0]);
            let cur_cmd = String::from(input[1]);
            let cur_path = tmp_dir.path().join(input[2]);
            let expected = input[3];

            let cmd_path = cur_path.join(cur_cmd.clone());

            ensure_files_created(
                tmp_dir.path().to_path_buf(),
                [binary_path.clone(), cmd_path].as_ref(),
            );

            let expectation = match expected {
                "t" => true,
                _ => false,
            };

            let observed =
                path::paths_equivalent(binary_path, cur_cmd, cur_path.as_path()).unwrap();
            assert_eq!(observed, expectation)
        });
    }
}

#[test]
fn paths_equivalent() {
    let inputs = [
        ["prog", "./prog", "", "t"],
        ["foo/prog", "./foo/prog", "", "t"],
        ["foo/bar/prog", "./prog", "foo/bar", "t"],
        ["foo/prog", "../prog", "foo/bar", "t"],
    ];
    check_inputs(&inputs);
}

#[test]
fn mod_paths_equivalent_inputs() {
    let inputs = [
        ["prog", "./prog", "", "t"],
        ["foo/prog", "./foo/prog", "", "t"],
        ["foo/bar/prog", "./prog", "foo/bar", "t"],
        ["foo/prog", "../prog", "foo/bar", "t"],
    ];
    check_inputs(&inputs);
}

#[test]
fn path_paths_equivalent_inputs() {
    let inputs = [
        ["prog", "./prog", "", "t"],
        ["foo/prog", "./foo/prog", "", "t"],
        ["foo/bar/prog", "./prog", "foo/bar", "t"],
        ["foo/prog", "../prog", "foo/bar", "t"],
    ];
    check_inputs(&inputs);
}

#[test]
fn an_unrelated_program_of_the_same_name_is_not_the_shim() {
    in_tmpdir(|tmp_dir| {
        let root = tmp_dir.path().to_path_buf();
        ensure_files_created(
            root.clone(),
            [PathBuf::from("shims/prog"), PathBuf::from("real/prog")].as_ref(),
        );
        let shim = root.join("shims/prog");

        let from_real = path::paths_equivalent(
            shim.clone(),
            String::from("./prog"),
            root.join("real").as_path(),
        );
        assert_eq!(from_real.unwrap(), false);

        let across = path::paths_equivalent(
            shim.clone(),
            String::from("../real/prog"),
            root.join("shims").as_path(),
        );
        assert_eq!(across.unwrap(), false);

        let from_shims =
            path::paths_equivalent(shim, String::from("./prog"), root.join("shims").as_path());
        assert_eq!(from_shims.unwrap(), true);
    });
}

#[test]
fn a_link_to_the_shim_is_the_shim() {
    in_tmpdir(|tmp_dir| {
        let root = tmp_dir.path().to_path_buf();
        ensure_files_created(root.clone(), [PathBuf::from("shims/hull")].as_ref());
        create_dir_all(root.join("links").as_path());
        let shim = root.join("shims/hull");
        symlinkat(shim.as_path(), None, root.join("links/make").as_path()).unwrap();

        let through_link = path::paths_equivalent(
            shim.clone(),
            String::from("./make"),
            root.join("links").as_path(),
        );
        assert_eq!(through_link.unwrap(), true);

        let absolute = path::paths_equivalent(
            shim,
            String::from(root.join("links/make").to_str().unwrap()),
            Path::new("/"),
        );
        assert_eq!(absolute.unwrap(), true);
    });
}

#[test]
fn a_command_that_does_not_resolve_is_an_error() {
    in_tmpdir(|tmp_dir| {
        let root = tmp_dir.path().to_path_buf();
        ensure_files_created(root.clone(), [PathBuf::from("prog")].as_ref());
        let missing =
            path::paths_equivalent(root.join("prog"), String::from("./gone"), root.as_path());
        assert_eq!(missing.unwrap_err().kind(), std::io::ErrorKind::NotFound);
    });
}

#[test]
fn a_shim_that_does_not_resolve_is_an_error() {
    in_tmpdir(|tmp_dir| {
        let root = tmp_dir.path().to_path_buf();
        ensure_files_created(root.clone(), [PathBuf::from("prog")].as_ref());
        let with_separator =
            path::paths_equivalent(root.join("gone"), String::from("./prog"), root.as_path());
        assert!(with_separator.is_err());
        let bare = path::paths_equivalent(root.join("gone"), String::from("prog"), root.as_path());
        assert!(bare.is_err());
    });
}

#[test]
fn a_bare_name_is_left_to_the_search_path() {
    in_tmpdir(|tmp_dir| {
        let root = tmp_dir.path().to_path_buf();
        ensure_files_created(root.clone(), [PathBuf::from("prog")].as_ref());
        let bare = path::paths_equivalent(root.join("prog"), String::from("prog"), root.as_path());
        assert_eq!(bare.unwrap(), false);
    });
}

#[test]
fn the_command_fails_before_the_shim() {
    in_tmpdir(|tmp_dir| {
        let root = tmp_dir.path().to_path_buf();
        ensure_files_created(root.clone(), [PathBuf::from("dir/file")].as_ref());
        // The command runs through a file as if it were a directory; the
        // shim's own location is simply missing.
        let both = path::paths_equivalent(
            root.join("gone"),
            String::from("./dir/file/prog"),
            root.as_path(),
        );
        let refusal = both.unwrap_err();
        assert_ne!(refusal.kind(), std::io::ErrorKind::NotFound);
    });
}
