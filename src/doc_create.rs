use vstd::prelude::*;

verus! {

/// Request to create a document.
#[derive(Clone, Debug)]
pub struct CreateDocRequest {
    pub id: String,
    pub name: String,
    pub desc: String,
}

impl CreateDocRequest {
    /// Every field is empty.
    pub open spec fn is_default(&self) -> bool {
        &&& self.id@.len() == 0
        &&& self.name@.len() == 0
        &&& self.desc@.len() == 0
    }

    pub fn new() -> (r: CreateDocRequest)
        ensures
            r.is_default(),
    {
        CreateDocRequest { id: String::new(), name: String::new(), desc: String::new() }
    }

    // string id = 1;

    pub fn get_id(&self) -> (r: &str)
        ensures
            r@ == self.id@,
    {
        self.id.as_str()
    }

    pub fn clear_id(&mut self)
        ensures
            final(self).id@ == Seq::<char>::empty(),
            final(self).name == old(self).name,
            final(self).desc == old(self).desc,
    {
        self.id = String::new();
    }

    pub fn set_id(&mut self, v: String)
        ensures
            final(self).id == v,
            final(self).name == old(self).name,
            final(self).desc == old(self).desc,
    {
        self.id = v;
    }

    /// The field itself, for changing it in place.
    pub fn mut_id(&mut self) -> (r: &mut String)
        ensures
            *r == old(self).id,
            final(self).id == *final(r),
            final(self).name == old(self).name,
            final(self).desc == old(self).desc,
    {
        &mut self.id
    }

    /// Moves the field out, leaving it empty.
    pub fn take_id(&mut self) -> (r: String)
        ensures
            r == old(self).id,
            final(self).id@ == Seq::<char>::empty(),
            final(self).name == old(self).name,
            final(self).desc == old(self).desc,
    {
        let mut v = String::new();
        std::mem::swap(&mut self.id, &mut v);
        v
    }

    // string name = 2;

    pub fn get_name(&self) -> (r: &str)
        ensures
            r@ == self.name@,
    {
        self.name.as_str()
    }

    pub fn clear_name(&mut self)
        ensures
            final(self).name@ == Seq::<char>::empty(),
            final(self).id == old(self).id,
            final(self).desc == old(self).desc,
    {
        self.name = String::new();
    }

    pub fn set_name(&mut self, v: String)
        ensures
            final(self).name == v,
            final(self).id == old(self).id,
            final(self).desc == old(self).desc,
    {
        self.name = v;
    }

    /// The field itself, for changing it in place.
    pub fn mut_name(&mut self) -> (r: &mut String)
        ensures
            *r == old(self).name,
            final(self).name == *final(r),
            final(self).id == old(self).id,
            final(self).desc == old(self).desc,
    {
        &mut self.name
    }

    /// Moves the field out, leaving it empty.
    pub fn take_name(&mut self) -> (r: String)
        ensures
            r == old(self).name,
            final(self).name@ == Seq::<char>::empty(),
            final(self).id == old(self).id,
            final(self).desc == old(self).desc,
    {
        let mut v = String::new();
        std::mem::swap(&mut self.name, &mut v);
        v
    }

    // string desc = 3;

    pub fn get_desc(&self) -> (r: &str)
        ensures
            r@ == self.desc@,
    {
        self.desc.as_str()
    }

    pub fn clear_desc(&mut self)
        ensures
            final(self).desc@ == Seq::<char>::empty(),
            final(self).id == old(self).id,
            final(self).name == old(self).name,
    {
        self.desc = String::new();
    }

    pub fn set_desc(&mut self, v: String)
        ensures
            final(self).desc == v,
            final(self).id == old(self).id,
            final(self).name == old(self).name,
    {
        self.desc = v;
    }

    /// The field itself, for changing it in place.
    pub fn mut_desc(&mut self) -> (r: &mut String)
        ensures
            *r == old(self).desc,
            final(self).desc == *final(r),
            final(self).id == old(self).id,
            final(self).name == old(self).name,
    {
        &mut self.desc
    }

    /// Moves the field out, leaving it empty.
    pub fn take_desc(&mut self) -> (r: String)
        ensures
            r == old(self).desc,
            final(self).desc@ == Seq::<char>::empty(),
            final(self).id == old(self).id,
            final(self).name == old(self).name,
    {
        let mut v = String::new();
        std::mem::swap(&mut self.desc, &mut v);
        v
    }
}

/// What describes a document: its identifier, name, description and path.
#[derive(Clone, Debug)]
pub struct DocDescription {
    pub id: String,
    pub name: String,
    pub desc: String,
    pub path: String,
}

impl DocDescription {
    /// Every field is empty.
    pub open spec fn is_default(&self) -> bool {
        &&& self.id@.len() == 0
        &&& self.name@.len() == 0
        &&& self.desc@.len() == 0
        &&& self.path@.len() == 0
    }

    pub fn new() -> (r: DocDescription)
        ensures
            r.is_default(),
    {
        DocDescription { id: String::new(), name: String::new(), desc: String::new(), path: String::new() }
    }

    // string id = 1;

    pub fn get_id(&self) -> (r: &str)
        ensures
            r@ == self.id@,
    {
        self.id.as_str()
    }

    pub fn clear_id(&mut self)
        ensures
            final(self).id@ == Seq::<char>::empty(),
            final(self).name == old(self).name,
            final(self).desc == old(self).desc,
            final(self).path == old(self).path,
    {
        self.id = String::new();
    }

    pub fn set_id(&mut self, v: String)
        ensures
            final(self).id == v,
            final(self).name == old(self).name,
            final(self).desc == old(self).desc,
            final(self).path == old(self).path,
    {
        self.id = v;
    }

    /// The field itself, for changing it in place.
    pub fn mut_id(&mut self) -> (r: &mut String)
        ensures
            *r == old(self).id,
            final(self).id == *final(r),
            final(self).name == old(self).name,
            final(self).desc == old(self).desc,
            final(self).path == old(self).path,
    {
        &mut self.id
    }

    /// Moves the field out, leaving it empty.
    pub fn take_id(&mut self) -> (r: String)
        ensures
            r == old(self).id,
            final(self).id@ == Seq::<char>::empty(),
            final(self).name == old(self).name,
            final(self).desc == old(self).desc,
            final(self).path == old(self).path,
    {
        let mut v = String::new();
        std::mem::swap(&mut self.id, &mut v);
        v
    }

    // string name = 2;

    pub fn get_name(&self) -> (r: &str)
        ensures
            r@ == self.name@,
    {
        self.name.as_str()
    }

    pub fn clear_name(&mut self)
        ensures
            final(self).name@ == Seq::<char>::empty(),
            final(self).id == old(self).id,
            final(self).desc == old(self).desc,
            final(self).path == old(self).path,
    {
        self.name = String::new();
    }

    pub fn set_name(&mut self, v: String)
        ensures
            final(self).name == v,
            final(self).id == old(self).id,
            final(self).desc == old(self).desc,
            final(self).path == old(self).path,
    {
        self.name = v;
    }

    /// The field itself, for changing it in place.
    pub fn mut_name(&mut self) -> (r: &mut String)
        ensures
            *r == old(self).name,
            final(self).name == *final(r),
            final(self).id == old(self).id,
            final(self).desc == old(self).desc,
            final(self).path == old(self).path,
    {
        &mut self.name
    }

    /// Moves the field out, leaving it empty.
    pub fn take_name(&mut self) -> (r: String)
        ensures
            r == old(self).name,
            final(self).name@ == Seq::<char>::empty(),
            final(self).id == old(self).id,
            final(self).desc == old(self).desc,
            final(self).path == old(self).path,
    {
        let mut v = String::new();
        std::mem::swap(&mut self.name, &mut v);
        v
    }

    // string desc = 3;

    pub fn get_desc(&self) -> (r: &str)
        ensures
            r@ == self.desc@,
    {
        self.desc.as_str()
    }

    pub fn clear_desc(&mut self)
        ensures
            final(self).desc@ == Seq::<char>::empty(),
            final(self).id == old(self).id,
            final(self).name == old(self).name,
            final(self).path == old(self).path,
    {
        self.desc = String::new();
    }

    pub fn set_desc(&mut self, v: String)
        ensures
            final(self).desc == v,
            final(self).id == old(self).id,
            final(self).name == old(self).name,
            final(self).path == old(self).path,
    {
        self.desc = v;
    }

    /// The field itself, for changing it in place.
    pub fn mut_desc(&mut self) -> (r: &mut String)
        ensures
            *r == old(self).desc,
            final(self).desc == *final(r),
            final(self).id == old(self).id,
            final(self).name == old(self).name,
            final(self).path == old(self).path,
    {
        &mut self.desc
    }

    /// Moves the field out, leaving it empty.
    pub fn take_desc(&mut self) -> (r: String)
        ensures
            r == old(self).desc,
            final(self).desc@ == Seq::<char>::empty(),
            final(self).id == old(self).id,
            final(self).name == old(self).name,
            final(self).path == old(self).path,
    {
        let mut v = String::new();
        std::mem::swap(&mut self.desc, &mut v);
        v
    }

    // string path = 4;

    pub fn get_path(&self) -> (r: &str)
        ensures
            r@ == self.path@,
    {
        self.path.as_str()
    }

    pub fn clear_path(&mut self)
        ensures
            final(self).path@ == Seq::<char>::empty(),
            final(self).id == old(self).id,
            final(self).name == old(self).name,
            final(self).desc == old(self).desc,
    {
        self.path = String::new();
    }

    pub fn set_path(&mut self, v: String)
        ensures
            final(self).path == v,
            final(self).id == old(self).id,
            final(self).name == old(self).name,
            final(self).desc == old(self).desc,
    {
        self.path = v;
    }

    /// The field itself, for changing it in place.
    pub fn mut_path(&mut self) -> (r: &mut String)
        ensures
            *r == old(self).path,
            final(self).path == *final(r),
            final(self).id == old(self).id,
            final(self).name == old(self).name,
            final(self).desc == old(self).desc,
    {
        &mut self.path
    }

    /// Moves the field out, leaving it empty.
    pub fn take_path(&mut self) -> (r: String)
        ensures
            r == old(self).path,
            final(self).path@ == Seq::<char>::empty(),
            final(self).id == old(self).id,
            final(self).name == old(self).name,
            final(self).desc == old(self).desc,
    {
        let mut v = String::new();
        std::mem::swap(&mut self.path, &mut v);
        v
    }
}

/// A document: its optional description and its text.
#[derive(Clone, Debug)]
pub struct Doc {
    desc: DocDescription,
    desc_set: bool,
    content: String,
}

impl Doc {
    /// The description, where one was set.
    pub closed spec fn desc_value(&self) -> Option<DocDescription> {
        if self.desc_set {
            Some(self.desc)
        } else {
            None
        }
    }

    /// The text.
    pub closed spec fn content_value(&self) -> String {
        self.content
    }

    /// An unset description is held as the empty one.
    pub closed spec fn wf(&self) -> bool {
        !self.desc_set ==> self.desc.is_default()
    }

    pub fn new() -> (r: Doc)
        ensures
            r.wf(),
            r.desc_value() is None,
            r.content_value()@ == Seq::<char>::empty(),
    {
        Doc { desc: DocDescription::new(), desc_set: false, content: String::new() }
    }

    // .DocDescription desc = 1;

    /// The description, or the empty one where none was set.
    pub fn get_desc(&self) -> (r: &DocDescription)
        requires
            self.wf(),
        ensures
            match self.desc_value() {
                Some(d) => *r == d,
                None => r.is_default(),
            },
    {
        &self.desc
    }

    pub fn clear_desc(&mut self)
        ensures
            final(self).wf(),
            final(self).desc_value() is None,
            final(self).content_value() == old(self).content_value(),
    {
        self.desc = DocDescription::new();
        self.desc_set = false;
    }

    pub fn has_desc(&self) -> (r: bool)
        ensures
            r == self.desc_value() is Some,
    {
        self.desc_set
    }

    pub fn set_desc(&mut self, v: DocDescription)
        ensures
            final(self).wf(),
            final(self).desc_value() == Some(v),
            final(self).content_value() == old(self).content_value(),
    {
        self.desc = v;
        self.desc_set = true;
    }

    /// The description itself, for changing it in place; an unset one is
    /// set to the empty description first.
    pub fn mut_desc(&mut self) -> (r: &mut DocDescription)
        requires
            old(self).wf(),
        ensures
            match old(self).desc_value() {
                Some(d) => *r == d,
                None => r.is_default(),
            },
            final(self).wf(),
            final(self).desc_value() == Some(*final(r)),
            final(self).content_value() == old(self).content_value(),
    {
        self.desc_set = true;
        &mut self.desc
    }

    /// Moves the description out, or hands out the empty one where none was
    /// set; the description is unset afterwards.
    pub fn take_desc(&mut self) -> (r: DocDescription)
        requires
            old(self).wf(),
        ensures
            match old(self).desc_value() {
                Some(d) => r == d,
                None => r.is_default(),
            },
            final(self).wf(),
            final(self).desc_value() is None,
            final(self).content_value() == old(self).content_value(),
    {
        let mut v = DocDescription::new();
        std::mem::swap(&mut self.desc, &mut v);
        self.desc_set = false;
        v
    }

    // string content = 2;

    pub fn get_content(&self) -> (r: &str)
        ensures
            r@ == self.content_value()@,
    {
        self.content.as_str()
    }

    pub fn clear_content(&mut self)
        ensures
            final(self).content_value()@ == Seq::<char>::empty(),
            final(self).desc_value() == old(self).desc_value(),
            final(self).wf() == old(self).wf(),
    {
        self.content = String::new();
    }

    pub fn set_content(&mut self, v: String)
        ensures
            final(self).content_value() == v,
            final(self).desc_value() == old(self).desc_value(),
            final(self).wf() == old(self).wf(),
    {
        self.content = v;
    }

    /// The field itself, for changing it in place.
    pub fn mut_content(&mut self) -> (r: &mut String)
        ensures
            *r == old(self).content_value(),
            final(self).content_value() == *final(r),
            final(self).desc_value() == old(self).desc_value(),
            final(self).wf() == old(self).wf(),
    {
        &mut self.content
    }

    /// Moves the field out, leaving it empty.
    pub fn take_content(&mut self) -> (r: String)
        ensures
            r == old(self).content_value(),
            final(self).content_value()@ == Seq::<char>::empty(),
            final(self).desc_value() == old(self).desc_value(),
            final(self).wf() == old(self).wf(),
    {
        let mut v = String::new();
        std::mem::swap(&mut self.content, &mut v);
        v
    }
}

} // verus!
