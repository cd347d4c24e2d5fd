use epi_rst::client::EpiRst;

const ROOT: &str = "https://intra.epitech.eu/";

#[test]
fn plain_fragment_gets_question_separator() {
    let c = EpiRst::new("tok");
    assert_eq!(
        c.get_payload("user/jdoe"),
        "https://intra.epitech.eu/tok/user/jdoe?format=json"
    );
}

#[test]
fn query_fragment_gets_ampersand_separator() {
    let c = EpiRst::new("tok");
    assert_eq!(
        c.get_payload("planning/load?start=2024"),
        "https://intra.epitech.eu/tok/planning/load?start=2024&format=json"
    );
}

#[test]
fn url_starts_with_root_and_token() {
    let c = EpiRst::new("abc123");
    let url = c.get_payload("stage");
    assert!(url.starts_with(&format!("{}abc123/", ROOT)));
}

#[test]
fn dashboard_url() {
    let c = EpiRst::new("tok");
    assert_eq!(c.get_dashboard(), "https://intra.epitech.eu/tok/?format=json");
}

#[test]
fn user_profile_url() {
    let c = EpiRst::new("abc123");
    assert_eq!(
        c.get_user("jdoe"),
        "https://intra.epitech.eu/abc123/user/jdoe?format=json"
    );
}

#[test]
fn user_netsoul_url() {
    let c = EpiRst::new("tok");
    assert_eq!(
        c.get_user_netsoul("jdoe"),
        "https://intra.epitech.eu/tok/user/jdoe/netsoul?format=json"
    );
}

#[test]
fn partners_url() {
    let c = EpiRst::new("tok");
    assert_eq!(
        c.get_partners("jdoe"),
        "https://intra.epitech.eu/tok/user/jdoe/binome?format=json"
    );
}

#[test]
fn user_absences_url() {
    let c = EpiRst::new("tok");
    assert_eq!(
        c.get_user_absences("jdoe"),
        "https://intra.epitech.eu/tok/user/jdoe/absences?format=json"
    );
}

#[test]
fn planning_url() {
    let c = EpiRst::new("tok");
    assert_eq!(
        c.get_planning(),
        "https://intra.epitech.eu/tok/planning/load?format=json"
    );
}

#[test]
fn module_board_url() {
    let c = EpiRst::new("tok");
    assert_eq!(
        c.get_module_board("B-CPE-100"),
        "https://intra.epitech.eu/tok/module/B-CPE-100/board?format=json"
    );
}

#[test]
fn course_filter_url() {
    let c = EpiRst::new("tok");
    assert_eq!(
        c.course_filter(),
        "https://intra.epitech.eu/tok/course/filter?format=json"
    );
}

#[test]
fn module_url() {
    let c = EpiRst::new("tok");
    assert_eq!(
        c.get_module("2024", "B-CPE-100", "PAR-1-1"),
        "https://intra.epitech.eu/tok/module/2024/B-CPE-100/PAR-1-1?format=json"
    );
}

#[test]
fn registered_module_url() {
    let c = EpiRst::new("tok");
    assert_eq!(
        c.get_registered_module("2024", "B-CPE-100", "PAR-1-1"),
        "https://intra.epitech.eu/tok/module/2024/B-CPE-100/PAR-1-1/registered?format=json"
    );
}

#[test]
fn project_url() {
    let c = EpiRst::new("tok");
    assert_eq!(
        c.get_project("2024", "B-CPE-100", "PAR-1-1", "acti-123"),
        "https://intra.epitech.eu/tok/module/2024/B-CPE-100/PAR-1-1/acti-123/project?format=json"
    );
}

#[test]
fn project_registered_url() {
    let c = EpiRst::new("tok");
    assert_eq!(
        c.get_project_registered("2024", "B-CPE-100", "PAR-1-1", "acti-123"),
        "https://intra.epitech.eu/tok/module/2024/B-CPE-100/PAR-1-1/acti-123/project/registered?format=json"
    );
}

#[test]
fn project_unregistered_url() {
    let c = EpiRst::new("tok");
    assert_eq!(
        c.get_project_unregistered("2024", "B-CPE-100", "PAR-1-1", "acti-123"),
        "https://intra.epitech.eu/tok/module/2024/B-CPE-100/PAR-1-1/acti-123/project/unregistered?format=json"
    );
}

#[test]
fn download_file_url() {
    let c = EpiRst::new("tok");
    assert_eq!(
        c.download_file("path/to/file.pdf"),
        "https://intra.epitech.eu/tok/path/to/file.pdf?format=json"
    );
}

#[test]
fn activity_url() {
    let c = EpiRst::new("tok");
    assert_eq!(
        c.get_activity("2024", "B-CPE-100", "PAR-1-1", "acti-123"),
        "https://intra.epitech.eu/tok/module/2024/B-CPE-100/PAR-1-1/acti-123?format=json"
    );
}

#[test]
fn project_files_url() {
    let c = EpiRst::new("tok");
    assert_eq!(
        c.get_project_files("2024", "B-CPE-100", "PAR-1-1", "acti-123", "event-1"),
        "https://intra.epitech.eu/tok/module/2024/B-CPE-100/PAR-1-1/acti-123/event-1/project/file/?format=json"
    );
}

#[test]
fn event_registered_url() {
    let c = EpiRst::new("tok");
    assert_eq!(
        c.get_event_registered("2024", "B-CPE-100", "PAR-1-1", "acti-123", "event-1"),
        "https://intra.epitech.eu/tok/module/2024/B-CPE-100/PAR-1-1/acti-123/event-1/registered?format=json"
    );
}

#[test]
fn internship_url() {
    let c = EpiRst::new("tok");
    assert_eq!(
        c.get_internship(),
        "https://intra.epitech.eu/tok/stage?format=json"
    );
}

#[test]
fn autologin_url() {
    let c = EpiRst::new("tok");
    assert_eq!(
        c.get_autologin(),
        "https://intra.epitech.eu/tok/admin/autologin?format=json"
    );
}
