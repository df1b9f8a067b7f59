//! Courses of a catalog and the one-line overview of each.

use vstd::prelude::*;
use vstd::string::StringExecFns;

verus! {

/// A hands-on course.
pub struct Workshop {
    pub title: String,
    pub instructor: String,
    /// The length in hours, as it is to be printed.
    pub duration: String,
}

/// A talk.
pub struct Seminar {
    pub title: String,
    pub speaker: String,
    pub location: String,
}

/// The kinds of course that the catalog lists.
pub enum CourseType {
    Workshop(Workshop),
    Seminar(Seminar),
}

/// What a workshop's overview reads, given that its details are complete.
pub open spec fn workshop_overview(workshop: Workshop) -> Seq<char> {
    "Workshop: "@ + workshop.title@ + ", Instructor: "@ + workshop.instructor@ + ", Duration: "@
        + workshop.duration@ + " hours"@
}

/// What a seminar's overview reads, given that its details are complete.
pub open spec fn seminar_overview(seminar: Seminar) -> Seq<char> {
    "Seminar: "@ + seminar.title@ + ", Speaker: "@ + seminar.speaker@ + ", Location: "@
        + seminar.location@
}

/// Anything that can sum itself up in a line.
pub trait Course {
    /// The line that sums the course up, or what is wrong with the course.
    spec fn overview(&self) -> Result<Seq<char>, Seq<char>>;

    /// Writes out [`Course::overview`].
    fn get_overview(&self) -> (result: Result<String, &'static str>)
        ensures
            match result {
                Ok(text) => self.overview() == Ok::<Seq<char>, Seq<char>>(text@),
                Err(complaint) => self.overview() == Err::<Seq<char>, Seq<char>>(complaint@),
            },
    ;
}

impl Course for CourseType {
    /// A course with an empty detail has no overview; any other has the
    /// line of its kind.
    open spec fn overview(&self) -> Result<Seq<char>, Seq<char>> {
        match *self {
            CourseType::Workshop(workshop) => if workshop.title@.len() == 0
                || workshop.instructor@.len() == 0 || workshop.duration@.len() == 0 {
                Err("Workshop details are incomplete"@)
            } else {
                Ok(workshop_overview(workshop))
            },
            CourseType::Seminar(seminar) => if seminar.title@.len() == 0 || seminar.speaker@.len()
                == 0 || seminar.location@.len() == 0 {
                Err("Seminar details are incomplete"@)
            } else {
                Ok(seminar_overview(seminar))
            },
        }
    }

    fn get_overview(&self) -> (result: Result<String, &'static str>) {
        match self {
            CourseType::Workshop(workshop) => {
                if workshop.title.as_str().is_empty() || workshop.instructor.as_str().is_empty()
                    || workshop.duration.as_str().is_empty() {
                    Err("Workshop details are incomplete")
                } else {
                    let mut text = String::from_str("Workshop: ");
                    text.append(workshop.title.as_str());
                    text.append(", Instructor: ");
                    text.append(workshop.instructor.as_str());
                    text.append(", Duration: ");
                    text.append(workshop.duration.as_str());
                    text.append(" hours");
                    Ok(text)
                }
            },
            CourseType::Seminar(seminar) => {
                if seminar.title.as_str().is_empty() || seminar.speaker.as_str().is_empty()
                    || seminar.location.as_str().is_empty() {
                    Err("Seminar details are incomplete")
                } else {
                    let mut text = String::from_str("Seminar: ");
                    text.append(seminar.title.as_str());
                    text.append(", Speaker: ");
                    text.append(seminar.speaker.as_str());
                    text.append(", Location: ");
                    text.append(seminar.location.as_str());
                    Ok(text)
                }
            },
        }
    }
}

} // verus!
