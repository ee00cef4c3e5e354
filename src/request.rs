//! The inbound request that names one compute instance, and its validation.
use vstd::prelude::*;

verus! {

/// A field of an inbound instance request.
#[derive(Debug, Clone, Copy, PartialEq, Eq, Structural)]
pub enum RequestField {
    Name,
    Project,
    Zone,
}

/// Why an inbound request was refused before any outbound call.
#[derive(Debug, Clone, Copy, PartialEq, Eq, Structural)]
pub enum ValidationError {
    /// The field is absent from the payload.
    Missing(RequestField),
    /// The field is present but holds the empty string.
    Empty(RequestField),
}

/// Identifies one compute instance: `{name, project, zone}`.
#[derive(Debug, Clone)]
pub struct InstanceRequest {
    pub name: String,
    pub project: String,
    pub zone: String,
}

/// What is wrong with one field, if anything.
pub open spec fn field_problem(v: Option<Seq<char>>, f: RequestField) -> Option<ValidationError> {
    match v {
        None => Some(ValidationError::Missing(f)),
        Some(s) => if s.len() == 0 {
            Some(ValidationError::Empty(f))
        } else {
            None
        },
    }
}

/// The first problem of a payload, fields taken in the order name, project, zone.
pub open spec fn request_problem(
    name: Option<Seq<char>>,
    project: Option<Seq<char>>,
    zone: Option<Seq<char>>,
) -> Option<ValidationError> {
    if field_problem(name, RequestField::Name) is Some {
        field_problem(name, RequestField::Name)
    } else if field_problem(project, RequestField::Project) is Some {
        field_problem(project, RequestField::Project)
    } else {
        field_problem(zone, RequestField::Zone)
    }
}

/// The view of an optional string field.
pub open spec fn opt_view(v: Option<String>) -> Option<Seq<char>> {
    match v {
        None => None,
        Some(s) => Some(s@),
    }
}

impl InstanceRequest {
    /// Every field is non-empty: what a request holds once it is accepted.
    pub open spec fn wf(&self) -> bool {
        &&& self.name@.len() > 0
        &&& self.project@.len() > 0
        &&& self.zone@.len() > 0
    }

    /// Accepts a payload whose three fields are present and non-empty.
    pub fn from_fields(name: Option<String>, project: Option<String>, zone: Option<String>) -> (r:
        Result<InstanceRequest, ValidationError>)
        ensures
            match r {
                Ok(q) => {
                    &&& request_problem(opt_view(name), opt_view(project), opt_view(zone)) is None
                    &&& Some(q.name@) == opt_view(name)
                    &&& Some(q.project@) == opt_view(project)
                    &&& Some(q.zone@) == opt_view(zone)
                    &&& q.wf()
                },
                Err(e) => request_problem(opt_view(name), opt_view(project), opt_view(zone))
                    == Some(e),
            },
    {
        let name = match check_field(name, RequestField::Name) {
            Ok(s) => s,
            Err(e) => return Err(e),
        };
        let project = match check_field(project, RequestField::Project) {
            Ok(s) => s,
            Err(e) => return Err(e),
        };
        let zone = match check_field(zone, RequestField::Zone) {
            Ok(s) => s,
            Err(e) => return Err(e),
        };
        Ok(InstanceRequest { name, project, zone })
    }
}

fn check_field(v: Option<String>, f: RequestField) -> (r: Result<String, ValidationError>)
    ensures
        match r {
            Ok(s) => field_problem(opt_view(v), f) is None && opt_view(v) == Some(s@),
            Err(e) => field_problem(opt_view(v), f) == Some(e),
        },
{
    match v {
        None => Err(ValidationError::Missing(f)),
        Some(s) => if s.as_str().is_empty() {
            Err(ValidationError::Empty(f))
        } else {
            Ok(s)
        },
    }
}

} // verus!
