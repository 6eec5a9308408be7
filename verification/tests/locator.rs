use worker_bridge::locator::{
    executable_candidates, resolve_among, Environment, Layout, Locator, LocatorError,
    ResolvedWorkerPath,
};

fn windows_env(cwd: &str) -> Environment {
    Environment {
        prefix: Some("C:\\conda".to_string()),
        active_name: Some("ml".to_string()),
        base: Some("C:\\miniconda".to_string()),
        search_path: Some("C:\\bin;D:\\tools".to_string()),
        working_directory: cwd.to_string(),
    }
}

fn bare_env(cwd: &str) -> Environment {
    Environment {
        prefix: None,
        active_name: None,
        base: None,
        search_path: None,
        working_directory: cwd.to_string(),
    }
}

/// Drives a search against a set of existing paths; gives the end and the probes made.
fn search(
    env: Environment,
    layout: Layout,
    existing: &[&str],
) -> (Result<ResolvedWorkerPath, LocatorError>, Vec<String>) {
    let mut locator = Locator::new(env, layout);
    let mut probes = Vec::new();
    while let Some(path) = locator.probe() {
        assert!(!locator.finished());
        assert!(probes.len() < 1000, "the search does not end");
        let present = existing.contains(&path.as_str());
        probes.push(path);
        locator = locator.answer(present);
    }
    assert!(locator.finished());
    (locator.finish().expect("a search without a probe has ended"), probes)
}

fn paths(existing: &[&str]) -> Vec<String> {
    existing.iter().map(|p| p.to_string()).collect()
}

#[test]
fn layouts_of_the_platforms() {
    assert_eq!(
        Layout::windows(),
        Layout {
            separator: '\\',
            list_separator: ';',
            executable: "python.exe".to_string(),
            fallback: "python".to_string(),
        }
    );
    assert_eq!(
        Layout::unix(),
        Layout {
            separator: '/',
            list_separator: ':',
            executable: "python3".to_string(),
            fallback: "python3".to_string(),
        }
    );
}

#[test]
fn candidates_come_in_the_resolution_order() {
    assert_eq!(
        executable_candidates(&windows_env("C:\\proj"), &Layout::windows()),
        vec![
            "C:\\conda\\python.exe",
            "C:\\miniconda\\envs\\ml\\python.exe",
            "C:\\bin\\python.exe",
            "D:\\tools\\python.exe",
        ]
    );
}

#[test]
fn candidates_need_their_declarations() {
    let layout = Layout::windows();
    assert_eq!(executable_candidates(&bare_env("C:\\proj"), &layout), Vec::<String>::new());
    let mut env = bare_env("C:\\proj");
    env.active_name = Some("ml".to_string());
    assert_eq!(executable_candidates(&env, &layout), Vec::<String>::new());
    env.active_name = None;
    env.base = Some("C:\\miniconda".to_string());
    assert_eq!(executable_candidates(&env, &layout), Vec::<String>::new());
    env.active_name = Some("ml".to_string());
    assert_eq!(executable_candidates(&env, &layout), vec!["C:\\miniconda\\envs\\ml\\python.exe"]);
    env.search_path = Some("".to_string());
    assert_eq!(
        executable_candidates(&env, &layout),
        vec!["C:\\miniconda\\envs\\ml\\python.exe", "python.exe"]
    );
    let mut unix = bare_env("/srv");
    unix.search_path = Some("/usr/bin/:/bin".to_string());
    assert_eq!(
        executable_candidates(&unix, &Layout::unix()),
        vec!["/usr/bin/python3", "/bin/python3"]
    );
}

#[test]
fn the_first_candidate_that_exists_wins() {
    let existing = [
        "C:\\miniconda\\envs\\ml\\python.exe",
        "D:\\tools\\python.exe",
        "C:\\proj\\python\\main.py",
    ];
    let (end, probes) = search(windows_env("C:\\proj"), Layout::windows(), &existing);
    assert_eq!(
        end,
        Ok(ResolvedWorkerPath {
            executable_path: "C:\\miniconda\\envs\\ml\\python.exe".to_string(),
            script_path: "C:\\proj\\python\\main.py".to_string(),
            working_directory: "C:\\proj".to_string(),
        })
    );
    assert_eq!(
        probes,
        vec![
            "C:\\conda\\python.exe",
            "C:\\miniconda\\envs\\ml\\python.exe",
            "C:\\proj\\python\\main.py",
        ]
    );
}

#[test]
fn the_prefix_comes_before_everything_else() {
    let existing = [
        "C:\\conda\\python.exe",
        "C:\\miniconda\\envs\\ml\\python.exe",
        "C:\\bin\\python.exe",
        "C:\\proj\\python\\main.py",
    ];
    let (end, probes) = search(windows_env("C:\\proj"), Layout::windows(), &existing);
    assert_eq!(end.unwrap().executable_path, "C:\\conda\\python.exe");
    assert_eq!(probes, vec!["C:\\conda\\python.exe", "C:\\proj\\python\\main.py"]);
}

#[test]
fn the_search_path_is_scanned_in_order() {
    let existing = ["D:\\tools\\python.exe", "C:\\proj\\python\\main.py"];
    let (end, probes) = search(windows_env("C:\\proj"), Layout::windows(), &existing);
    assert_eq!(end.unwrap().executable_path, "D:\\tools\\python.exe");
    assert_eq!(
        probes,
        vec![
            "C:\\conda\\python.exe",
            "C:\\miniconda\\envs\\ml\\python.exe",
            "C:\\bin\\python.exe",
            "D:\\tools\\python.exe",
            "C:\\proj\\python\\main.py",
        ]
    );
}

#[test]
fn the_bare_command_stands_in_where_no_candidate_exists() {
    let existing = ["C:\\proj\\python\\main.py"];
    let (end, probes) = search(windows_env("C:\\proj"), Layout::windows(), &existing);
    assert_eq!(
        end,
        Ok(ResolvedWorkerPath {
            executable_path: "python".to_string(),
            script_path: "C:\\proj\\python\\main.py".to_string(),
            working_directory: "C:\\proj".to_string(),
        })
    );
    assert_eq!(probes.len(), 5);
    let (end, probes) = search(bare_env("/srv/app"), Layout::unix(), &["/srv/app/python/main.py"]);
    assert_eq!(
        end,
        Ok(ResolvedWorkerPath {
            executable_path: "python3".to_string(),
            script_path: "/srv/app/python/main.py".to_string(),
            working_directory: "/srv/app".to_string(),
        })
    );
    assert_eq!(probes, vec!["/srv/app/python/main.py"]);
}

#[test]
fn the_script_is_found_from_a_nested_directory() {
    let existing = ["/home/u/app/python/main.py", "/home/python/main.py"];
    let (end, probes) =
        search(bare_env("/home/u/app/src-tauri/target"), Layout::unix(), &existing);
    assert_eq!(
        end,
        Ok(ResolvedWorkerPath {
            executable_path: "python3".to_string(),
            script_path: "/home/u/app/python/main.py".to_string(),
            working_directory: "/home/u/app".to_string(),
        })
    );
    assert_eq!(
        probes,
        vec![
            "/home/u/app/src-tauri/target/python/main.py",
            "/home/u/app/src-tauri/python/main.py",
            "/home/u/app/python/main.py",
        ]
    );
}

#[test]
fn the_script_may_lie_under_the_root() {
    let (end, probes) = search(bare_env("/a/b"), Layout::unix(), &["/python/main.py"]);
    assert_eq!(
        end,
        Ok(ResolvedWorkerPath {
            executable_path: "python3".to_string(),
            script_path: "/python/main.py".to_string(),
            working_directory: "/".to_string(),
        })
    );
    assert_eq!(probes, vec!["/a/b/python/main.py", "/a/python/main.py", "/python/main.py"]);
}

#[test]
fn without_a_script_the_search_fails() {
    let (end, probes) = search(windows_env("C:\\proj\\src-tauri"), Layout::windows(), &[]);
    assert_eq!(
        end,
        Err(LocatorError {
            searched_from: "C:\\proj\\src-tauri".to_string(),
            expected_relative_path: "python\\main.py".to_string(),
        })
    );
    assert_eq!(
        probes,
        vec![
            "C:\\conda\\python.exe",
            "C:\\miniconda\\envs\\ml\\python.exe",
            "C:\\bin\\python.exe",
            "D:\\tools\\python.exe",
            "C:\\proj\\src-tauri\\python\\main.py",
            "C:\\proj\\python\\main.py",
            "C:\\python\\main.py",
        ]
    );
}

#[test]
fn an_executable_alone_does_not_resolve() {
    let (end, _) = search(windows_env("C:\\proj"), Layout::windows(), &["C:\\conda\\python.exe"]);
    assert_eq!(
        end,
        Err(LocatorError {
            searched_from: "C:\\proj".to_string(),
            expected_relative_path: "python\\main.py".to_string(),
        })
    );
    let (end, probes) = search(bare_env(""), Layout::unix(), &[]);
    assert_eq!(
        end,
        Err(LocatorError {
            searched_from: "".to_string(),
            expected_relative_path: "python/main.py".to_string(),
        })
    );
    assert_eq!(probes, vec!["python/main.py"]);
}

#[test]
fn a_search_that_goes_on_has_no_end_yet() {
    let locator = Locator::new(windows_env("C:\\proj"), Layout::windows());
    assert!(!locator.finished());
    assert_eq!(locator.probe(), Some("C:\\conda\\python.exe".to_string()));
    assert_eq!(locator.finish(), None);
}

#[test]
fn a_search_that_has_ended_takes_no_more_answers() {
    let mut locator = Locator::new(bare_env("/srv"), Layout::unix());
    locator = locator.answer(true);
    assert!(locator.finished());
    assert_eq!(locator.probe(), None);
    locator = locator.answer(false).answer(true);
    assert_eq!(
        locator.finish(),
        Some(Ok(ResolvedWorkerPath {
            executable_path: "python3".to_string(),
            script_path: "/srv/python/main.py".to_string(),
            working_directory: "/srv".to_string(),
        }))
    );
}

#[test]
fn resolving_among_listed_paths() {
    let existing = paths(&[
        "D:\\tools\\python.exe",
        "C:\\bin\\python.exe",
        "C:\\python\\main.py",
        "C:\\proj\\python\\main.py",
    ]);
    assert_eq!(
        resolve_among(windows_env("C:\\proj\\src-tauri\\target"), Layout::windows(), &existing),
        Ok(ResolvedWorkerPath {
            executable_path: "C:\\bin\\python.exe".to_string(),
            script_path: "C:\\proj\\python\\main.py".to_string(),
            working_directory: "C:\\proj".to_string(),
        })
    );
    assert_eq!(
        resolve_among(windows_env("D:\\elsewhere"), Layout::windows(), &existing),
        Err(LocatorError {
            searched_from: "D:\\elsewhere".to_string(),
            expected_relative_path: "python\\main.py".to_string(),
        })
    );
    assert_eq!(
        resolve_among(bare_env("/srv/app"), Layout::unix(), &vec![]),
        Err(LocatorError {
            searched_from: "/srv/app".to_string(),
            expected_relative_path: "python/main.py".to_string(),
        })
    );
}

#[test]
fn resolving_agrees_with_the_search_step_by_step() {
    let worlds: [&[&str]; 6] = [
        &[],
        &["/usr/bin/python3"],
        &["/srv/app/python/main.py"],
        &["/bin/python3", "/srv/python/main.py"],
        &["/usr/bin/python3", "/bin/python3", "/python/main.py", "/srv/app/src/python/main.py"],
        &["/opt/env/python3", "/opt/base/envs/ml/python3", "/srv/app/python/main.py"],
    ];
    let env = || Environment {
        prefix: Some("/opt/env".to_string()),
        active_name: Some("ml".to_string()),
        base: Some("/opt/base".to_string()),
        search_path: Some("/usr/bin:/bin".to_string()),
        working_directory: "/srv/app/src".to_string(),
    };
    for existing in worlds {
        let (end, _) = search(env(), Layout::unix(), existing);
        assert_eq!(resolve_among(env(), Layout::unix(), &paths(existing)), end, "world {:?}", existing);
    }
}
