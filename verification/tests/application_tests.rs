use similarity_search::active_windows::{get_active_window, ActiveWindow};
use similarity_search::clean_up_engine::{clean_up, Screenshot, ONE_DAY_IN_SECONDS};
use similarity_search::element_details::ElementDetails;
use similarity_search::entity::{Chat, Project, Setting};
use similarity_search::prerequisites::{check_and_install_prerequisites, Platform, SetupStep};

fn element(name: &str, text: &str, value: &str, childrens: Vec<ElementDetails>) -> ElementDetails {
    ElementDetails {
        name: name.to_string(),
        ctrl_typ: "pane".to_string(),
        bounding_rect: "0,0,1,1".to_string(),
        value: value.to_string(),
        text: text.to_string(),
        childrens,
    }
}

#[test]
fn empty_leaves_are_pruned() {
    let mut root = element(
        "root",
        "",
        "",
        vec![
            element("a", "hello", "", vec![]),
            element("b", "", "", vec![]),
            element("c", "", "42", vec![]),
            element("d", "", "", vec![]),
        ],
    );
    root.clean_elements_tree();
    assert_eq!(
        root,
        element("root", "", "", vec![element("a", "hello", "", vec![]), element("c", "", "42", vec![])])
    );
}

#[test]
fn pruning_works_from_the_leaves_up() {
    let hollow = element("hollow", "", "", vec![element("x", "", "", vec![element("y", "", "", vec![])])]);
    let solid = element("solid", "", "", vec![element("x", "", "", vec![element("y", "t", "", vec![])])]);
    let mut root = element("root", "", "", vec![hollow, solid]);
    root.clean_elements_tree();
    assert_eq!(
        root,
        element(
            "root",
            "",
            "",
            vec![element("solid", "", "", vec![element("x", "", "", vec![element("y", "t", "", vec![])])])]
        )
    );
}

#[test]
fn root_is_never_removed() {
    let mut root = element("root", "", "", vec![element("a", "", "", vec![])]);
    root.clean_elements_tree();
    assert_eq!(root, element("root", "", "", vec![]));
    let mut leaf = element("leaf", "", "", vec![]);
    leaf.clean_elements_tree();
    assert_eq!(leaf, element("leaf", "", "", vec![]));
}

#[test]
fn order_of_kept_elements_is_kept() {
    let mut root = element(
        "root",
        "t",
        "",
        vec![
            element("1", "a", "", vec![]),
            element("2", "", "", vec![]),
            element("3", "b", "", vec![]),
            element("4", "c", "", vec![]),
        ],
    );
    root.clean_elements_tree();
    let names: Vec<&str> = root.childrens.iter().map(|c| c.name.as_str()).collect();
    assert_eq!(names, vec!["1", "3", "4"]);
}

fn shot(path: &str, created: u64) -> Screenshot {
    Screenshot { path: path.to_string(), created }
}

#[test]
fn screenshots_older_than_a_day_are_stale() {
    let now: u64 = 1_700_000_000;
    let shots = vec![
        shot("old.png", now - ONE_DAY_IN_SECONDS - 1),
        shot("edge.png", now - ONE_DAY_IN_SECONDS),
        shot("new.png", now - 10),
        shot("ancient.png", 0),
    ];
    assert_eq!(clean_up(&shots, now), vec!["old.png".to_string(), "ancient.png".to_string()]);
}

#[test]
fn nothing_is_stale_in_the_first_day() {
    let shots = vec![shot("a.png", 0), shot("b.png", 5)];
    assert_eq!(clean_up(&shots, 86_400), Vec::<String>::new());
    assert_eq!(clean_up(&shots, 100), Vec::<String>::new());
    assert_eq!(clean_up(&shots, 86_401), vec!["a.png".to_string()]);
    assert_eq!(clean_up(&[].to_vec(), 1_700_000_000), Vec::<String>::new());
}

#[test]
fn missing_window_is_blank() {
    let blank = get_active_window(None);
    assert_eq!(blank, ActiveWindow::default());
    assert_eq!(blank.title, "");
    assert_eq!(blank.process_path, "");
    assert_eq!(blank.app_name, "");
    assert_eq!(blank.window_id, "");
    assert_eq!(blank.process_id, 0);
}

#[test]
fn found_window_is_returned() {
    let window = ActiveWindow {
        title: "notes".to_string(),
        process_path: "/usr/bin/editor".to_string(),
        app_name: "editor".to_string(),
        window_id: "0x42".to_string(),
        process_id: 4711,
    };
    assert_eq!(get_active_window(Some(window.clone())), window);
}

#[test]
fn installed_text_recognition_needs_no_installer() {
    assert_eq!(check_and_install_prerequisites(Platform::MacOs, "/app", true), vec![]);
    assert_eq!(check_and_install_prerequisites(Platform::Linux, "/app", false), vec![]);
    assert_eq!(
        check_and_install_prerequisites(Platform::Windows, "", true),
        vec![SetupStep::AppendToPath("C:\\Program Files\\Tesseract-OCR\\".to_string())]
    );
}

#[test]
fn missing_text_recognition_is_installed() {
    assert_eq!(
        check_and_install_prerequisites(Platform::MacOs, "/app", false),
        vec![
            SetupStep::MakeExecutable("/app/resources/scripts/install-macos.sh".to_string()),
            SetupStep::Run("/app/resources/scripts/install-macos.sh".to_string()),
        ]
    );
    assert_eq!(
        check_and_install_prerequisites(Platform::Windows, "\\\\?\\C:\\app", false),
        vec![
            SetupStep::RunInShell("C:\\app\\resources\\tesseract-ocr-w64-setup-5.3.1.20230401.exe".to_string()),
            SetupStep::AppendToPath("C:\\Program Files\\Tesseract-OCR\\".to_string()),
        ]
    );
}

#[test]
fn records_hold_their_fields() {
    let chat = Chat { id: 1, name: "n".to_string(), created_at: "a".to_string(), updated_at: "b".to_string() };
    assert_eq!(chat.clone().id, 1);
    let project = Project {
        id: 2,
        name: "p".to_string(),
        activities: vec![1, 2],
        activity_ids: vec![Some(1), None],
        activity_names: vec!["x".to_string()],
        created_at: "c".to_string(),
    };
    assert_eq!(project.activities.len(), 2);
    let setting = Setting { setting_key: "k".to_string(), setting_value: "v".to_string() };
    assert_eq!(setting.setting_key, "k");
}
