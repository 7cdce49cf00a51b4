use vstd::prelude::*;
pub use crate::db::files::get_user_files;
pub use crate::db::posts::get_user_posts;
use crate::db::{found, Database};
use crate::err::{CleoErr, ErrorKind};
use crate::models::InstanceInformation;

verus! {

/// The instance row: the first row of its table.
pub open spec fn instance_row(db: Database) -> Option<InstanceInformation> {
    if db.info@.len() > 0 {
        Some(db.info@[0])
    } else {
        None
    }
}

/// The row that describes this instance.
pub fn get_instance_info(db: &Database) -> (r: Result<InstanceInformation, CleoErr>)
    ensures
        found(instance_row(*db), r),
{
    if db.info.len() > 0 {
        Ok(db.info[0].clone())
    } else {
        Err(CleoErr::with_kind(ErrorKind::NotFound, "The instance has not been set up."))
    }
}

} // verus!
