use vstd::prelude::*;
use vstd::string::*;
use crate::urls::{assemble_url, url_of};

verus! {

/// The API client. It owns the session token and builds, for each remote
/// resource, the exact URL the corresponding GET request must be issued
/// to. Performing the request and completing its outcome is the caller's
/// side of the exchange (see [`crate::responses`]); returning the URL also
/// surfaces it for observability.
pub struct EpiRst {
    autologin_token: String,
}

impl EpiRst {
    /// The session token, as the sequence of its characters.
    pub closed spec fn token(&self) -> Seq<char> {
        self.autologin_token@
    }

    /// Builds a client around a pre-obtained session token. No I/O occurs.
    pub fn new(token: &str) -> (r: EpiRst)
        ensures
            r.token() == token@,
    {
        EpiRst { autologin_token: token.to_owned() }
    }

    /// The full request URL for an endpoint fragment.
    pub fn get_payload(&self, endpoint: &str) -> (r: String)
        ensures
            r@ == url_of(self.token(), endpoint@),
    {
        assemble_url(self.autologin_token.as_str(), endpoint)
    }

    /// URL of the dashboard (the service root resource).
    pub fn get_dashboard(&self) -> (r: String)
        ensures
            r@ == url_of(self.token(), ""@),
    {
        self.get_payload("")
    }

    /// URL of a user's profile.
    pub fn get_user(&self, user: &str) -> (r: String)
        ensures
            r@ == url_of(self.token(), "user/"@ + user@),
    {
        let p = "user/".to_owned().concat(user);
        self.get_payload(p.as_str())
    }

    /// URL of a user's netsoul attendance record.
    pub fn get_user_netsoul(&self, user: &str) -> (r: String)
        ensures
            r@ == url_of(self.token(), "user/"@ + user@ + "/netsoul"@),
    {
        let p = "user/".to_owned().concat(user).concat("/netsoul");
        self.get_payload(p.as_str())
    }

    /// URL of a user's project partners.
    pub fn get_partners(&self, user: &str) -> (r: String)
        ensures
            r@ == url_of(self.token(), "user/"@ + user@ + "/binome"@),
    {
        let p = "user/".to_owned().concat(user).concat("/binome");
        self.get_payload(p.as_str())
    }

    /// URL of a user's absence record.
    pub fn get_user_absences(&self, user: &str) -> (r: String)
        ensures
            r@ == url_of(self.token(), "user/"@ + user@ + "/absences"@),
    {
        let p = "user/".to_owned().concat(user).concat("/absences");
        self.get_payload(p.as_str())
    }

    /// URL of the schedule.
    pub fn get_planning(&self) -> (r: String)
        ensures
            r@ == url_of(self.token(), "planning/load"@),
    {
        self.get_payload("planning/load")
    }

    /// URL of a module's board.
    pub fn get_module_board(&self, module: &str) -> (r: String)
        ensures
            r@ == url_of(self.token(), "module/"@ + module@ + "/board"@),
    {
        let p = "module/".to_owned().concat(module).concat("/board");
        self.get_payload(p.as_str())
    }

    /// URL of the course list.
    pub fn course_filter(&self) -> (r: String)
        ensures
            r@ == url_of(self.token(), "course/filter"@),
    {
        self.get_payload("course/filter")
    }

    /// URL of a module's detail.
    pub fn get_module(&self, year: &str, module: &str, instance: &str) -> (r: String)
        ensures
            r@ == url_of(self.token(), "module/"@ + year@ + "/"@ + module@ + "/"@ + instance@),
    {
        let p = "module/".to_owned().concat(year).concat("/").concat(module).concat("/").concat(
            instance,
        );
        self.get_payload(p.as_str())
    }

    /// URL of a registered module's detail.
    pub fn get_registered_module(self, year: &str, module: &str, instance: &str) -> (r: String)
        ensures
            r@ == url_of(
                self.token(),
                "module/"@ + year@ + "/"@ + module@ + "/"@ + instance@ + "/registered"@,
            ),
    {
        let p = "module/".to_owned().concat(year).concat("/").concat(module).concat("/").concat(
            instance,
        ).concat("/registered");
        self.get_payload(p.as_str())
    }

    /// URL of an activity's project detail.
    pub fn get_project(&self, year: &str, module: &str, instance: &str, activity: &str) -> (r:
        String)
        ensures
            r@ == url_of(
                self.token(),
                "module/"@ + year@ + "/"@ + module@ + "/"@ + instance@ + "/"@ + activity@
                    + "/project"@,
            ),
    {
        let p = "module/".to_owned().concat(year).concat("/").concat(module).concat("/").concat(
            instance,
        ).concat("/").concat(activity).concat("/project");
        self.get_payload(p.as_str())
    }

    /// URL of a project's registrant list.
    pub fn get_project_registered(
        &self,
        year: &str,
        module: &str,
        instance: &str,
        activity: &str,
    ) -> (r: String)
        ensures
            r@ == url_of(
                self.token(),
                "module/"@ + year@ + "/"@ + module@ + "/"@ + instance@ + "/"@ + activity@
                    + "/project/registered"@,
            ),
    {
        let p = "module/".to_owned().concat(year).concat("/").concat(module).concat("/").concat(
            instance,
        ).concat("/").concat(activity).concat("/project/registered");
        self.get_payload(p.as_str())
    }

    /// URL of a project's non-registrant list; the response body is plain
    /// text, one name per line, completed by
    /// [`crate::responses::complete_lines`].
    pub fn get_project_unregistered(
        &self,
        year: &str,
        module: &str,
        instance: &str,
        activity: &str,
    ) -> (r: String)
        ensures
            r@ == url_of(
                self.token(),
                "module/"@ + year@ + "/"@ + module@ + "/"@ + instance@ + "/"@ + activity@
                    + "/project/unregistered"@,
            ),
    {
        let p = "module/".to_owned().concat(year).concat("/").concat(module).concat("/").concat(
            instance,
        ).concat("/").concat(activity).concat("/project/unregistered");
        self.get_payload(p.as_str())
    }

    /// URL for a raw file download; the caller-supplied location is
    /// interpolated like any other fragment, and the response body is kept
    /// as text (see [`crate::responses::complete_text`]).
    pub fn download_file(&self, url: &str) -> (r: String)
        ensures
            r@ == url_of(self.token(), url@),
    {
        self.get_payload(url)
    }

    /// URL of an activity's detail.
    pub fn get_activity(&self, year: &str, module: &str, instance: &str, activity: &str) -> (r:
        String)
        ensures
            r@ == url_of(
                self.token(),
                "module/"@ + year@ + "/"@ + module@ + "/"@ + instance@ + "/"@ + activity@,
            ),
    {
        let p = "module/".to_owned().concat(year).concat("/").concat(module).concat("/").concat(
            instance,
        ).concat("/").concat(activity);
        self.get_payload(p.as_str())
    }

    /// URL of an event's project file listing.
    pub fn get_project_files(
        &self,
        year: &str,
        module: &str,
        instance: &str,
        activity: &str,
        event: &str,
    ) -> (r: String)
        ensures
            r@ == url_of(
                self.token(),
                "module/"@ + year@ + "/"@ + module@ + "/"@ + instance@ + "/"@ + activity@ + "/"@
                    + event@ + "/project/file/"@,
            ),
    {
        let p = "module/".to_owned().concat(year).concat("/").concat(module).concat("/").concat(
            instance,
        ).concat("/").concat(activity).concat("/").concat(event).concat("/project/file/");
        self.get_payload(p.as_str())
    }

    /// URL of an event's registrant list.
    pub fn get_event_registered(
        &self,
        year: &str,
        module: &str,
        instance: &str,
        activity: &str,
        event: &str,
    ) -> (r: String)
        ensures
            r@ == url_of(
                self.token(),
                "module/"@ + year@ + "/"@ + module@ + "/"@ + instance@ + "/"@ + activity@ + "/"@
                    + event@ + "/registered"@,
            ),
    {
        let p = "module/".to_owned().concat(year).concat("/").concat(module).concat("/").concat(
            instance,
        ).concat("/").concat(activity).concat("/").concat(event).concat("/registered");
        self.get_payload(p.as_str())
    }

    /// URL of the internship status.
    pub fn get_internship(&self) -> (r: String)
        ensures
            r@ == url_of(self.token(), "stage"@),
    {
        self.get_payload("stage")
    }

    /// URL of the autologin information.
    pub fn get_autologin(&self) -> (r: String)
        ensures
            r@ == url_of(self.token(), "admin/autologin"@),
    {
        self.get_payload("admin/autologin")
    }
}

} // verus!
