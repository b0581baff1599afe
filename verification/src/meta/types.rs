//! Request and response types shared by every Metadata backend.

use vstd::prelude::*;
use crate::json::{Json, owned};

verus! {

/// Row cap of entity reads over the metadata path.
pub const MAX_ENTITY_ROWS: usize = 1000;

/// X++ / Application Object Tree (AOT) object kinds.
#[derive(Debug, Clone, Copy, PartialEq, Eq, Hash, Structural)]
pub enum XppObjectKind {
    Class,
    Interface,
    Table,
    DataEntity,
    View,
    Form,
    Job,
    Query,
    EnumType,
    ExtendedDataType,
    Macro,
    Model,
    CustomService,
    MenuItem,
}

/// The display label of a kind.
pub open spec fn kind_label(k: XppObjectKind) -> Seq<char> {
    match k {
        XppObjectKind::Class => "Class"@,
        XppObjectKind::Interface => "Interface"@,
        XppObjectKind::Table => "Table"@,
        XppObjectKind::DataEntity => "Data Entity"@,
        XppObjectKind::View => "View"@,
        XppObjectKind::Form => "Form"@,
        XppObjectKind::Job => "Job"@,
        XppObjectKind::Query => "Query"@,
        XppObjectKind::EnumType => "Enum"@,
        XppObjectKind::ExtendedDataType => "Extended Data Type"@,
        XppObjectKind::Macro => "Macro"@,
        XppObjectKind::Model => "Model"@,
        XppObjectKind::CustomService => "Custom Service"@,
        XppObjectKind::MenuItem => "Menu Item"@,
    }
}

/// The Metadata API collection of a kind; `None` for models, which have a flat feed.
pub open spec fn kind_collection(k: XppObjectKind) -> Option<Seq<char>> {
    match k {
        XppObjectKind::Class => Some("Classes"@),
        XppObjectKind::Interface => Some("Interfaces"@),
        XppObjectKind::Table => Some("Tables"@),
        XppObjectKind::DataEntity => Some("DataEntities"@),
        XppObjectKind::View => Some("Views"@),
        XppObjectKind::Form => Some("Forms"@),
        XppObjectKind::Job => Some("Jobs"@),
        XppObjectKind::Query => Some("Queries"@),
        XppObjectKind::EnumType => Some("Enums"@),
        XppObjectKind::ExtendedDataType => Some("ExtendedDataTypes"@),
        XppObjectKind::Macro => Some("Macros"@),
        XppObjectKind::Model => None,
        XppObjectKind::CustomService => Some("CustomServices"@),
        XppObjectKind::MenuItem => Some("MenuItems"@),
    }
}

/// The Metadata OData path of an object, e.g. `/metadata/Classes('GTFinPoster')`;
/// models all live at `/metadata/ModelInfos`.
pub open spec fn metadata_path_spec(k: XppObjectKind, name: Seq<char>) -> Seq<char> {
    match kind_collection(k) {
        Some(c) => "/metadata/"@ + c + "('"@ + name + "')"@,
        None => "/metadata/ModelInfos"@,
    }
}

impl XppObjectKind {
    pub fn label(self) -> (r: &'static str)
        ensures
            r@ == kind_label(self),
    {
        match self {
            XppObjectKind::Class => "Class",
            XppObjectKind::Interface => "Interface",
            XppObjectKind::Table => "Table",
            XppObjectKind::DataEntity => "Data Entity",
            XppObjectKind::View => "View",
            XppObjectKind::Form => "Form",
            XppObjectKind::Job => "Job",
            XppObjectKind::Query => "Query",
            XppObjectKind::EnumType => "Enum",
            XppObjectKind::ExtendedDataType => "Extended Data Type",
            XppObjectKind::Macro => "Macro",
            XppObjectKind::Model => "Model",
            XppObjectKind::CustomService => "Custom Service",
            XppObjectKind::MenuItem => "Menu Item",
        }
    }

    fn collection(self) -> (r: Option<&'static str>)
        ensures
            match kind_collection(self) {
                Some(c) => r matches Some(x) && x@ == c,
                None => r is None,
            },
    {
        match self {
            XppObjectKind::Class => Some("Classes"),
            XppObjectKind::Interface => Some("Interfaces"),
            XppObjectKind::Table => Some("Tables"),
            XppObjectKind::DataEntity => Some("DataEntities"),
            XppObjectKind::View => Some("Views"),
            XppObjectKind::Form => Some("Forms"),
            XppObjectKind::Job => Some("Jobs"),
            XppObjectKind::Query => Some("Queries"),
            XppObjectKind::EnumType => Some("Enums"),
            XppObjectKind::ExtendedDataType => Some("ExtendedDataTypes"),
            XppObjectKind::Macro => Some("Macros"),
            XppObjectKind::Model => None,
            XppObjectKind::CustomService => Some("CustomServices"),
            XppObjectKind::MenuItem => Some("MenuItems"),
        }
    }

    /// F&O Metadata OData path fragment, e.g. `/metadata/Classes('GTFinPoster')`.
    pub fn metadata_path(self, name: &str) -> (r: String)
        ensures
            r@ == metadata_path_spec(self, name@),
    {
        match self.collection() {
            Some(c) => {
                let mut r = owned("/metadata/");
                r.append(c);
                r.append("('");
                r.append(name);
                r.append("')");
                r
            },
            None => owned("/metadata/ModelInfos"),
        }
    }
}

#[derive(Debug)]
pub struct ObjectSource {
    pub name: String,
    pub kind: XppObjectKind,
    /// Model the object belongs to (e.g. `GTFin`).
    pub model: Option<String>,
    /// Short description / label from the object header.
    pub description: Option<String>,
    pub source: String,
    /// Whether the object is currently deployed (vs. checked-out / undeployed).
    pub deployed: bool,
    /// Lines counted from the source.
    pub line_count: usize,
}

impl ObjectSource {
    /// A field-by-field copy.
    pub fn duplicate(&self) -> (r: Self)
        ensures
            r == *self,
    {
        ObjectSource {
            name: self.name.clone(),
            kind: self.kind,
            model: crate::odata::client::clone_opt(&self.model),
            description: crate::odata::client::clone_opt(&self.description),
            source: self.source.clone(),
            deployed: self.deployed,
            line_count: self.line_count,
        }
    }
}

#[derive(Debug)]
pub struct DataEntityView {
    pub name: String,
    pub source: String,
    /// Public entity name exposed over OData, e.g. `LedgerJournalLineEntity`.
    pub public_entity_name: String,
    /// Entity properties distilled into a structured value for quick access.
    pub properties: Json,
    pub line_count: usize,
}

impl DataEntityView {
    /// A field-by-field copy.
    pub fn duplicate(&self) -> (r: Self)
        ensures
            r.name@ == self.name@,
            r.source@ == self.source@,
            r.public_entity_name@ == self.public_entity_name@,
            r.properties@ == self.properties@,
            r.line_count == self.line_count,
    {
        DataEntityView {
            name: self.name.clone(),
            source: self.source.clone(),
            public_entity_name: self.public_entity_name.clone(),
            properties: self.properties.duplicate(),
            line_count: self.line_count,
        }
    }
}

#[derive(Debug)]
pub struct ModelMember {
    pub name: String,
    pub kind: XppObjectKind,
    pub description: Option<String>,
}

#[derive(Debug)]
pub struct ModelContents {
    pub model: String,
    pub description: Option<String>,
    pub members: Vec<ModelMember>,
}

impl ModelContents {
    /// A field-by-field copy.
    pub fn duplicate(&self) -> (r: Self)
        ensures
            r.model == self.model,
            r.description == self.description,
            r.members@ == self.members@,
    {
        let mut members: Vec<ModelMember> = Vec::new();
        let mut i: usize = 0;
        while i < self.members.len()
            invariant
                i <= self.members.len(),
                members@ == self.members@.take(i as int),
            decreases self.members.len() - i,
        {
            let m = &self.members[i];
            members.push(
                ModelMember {
                    name: m.name.clone(),
                    kind: m.kind,
                    description: crate::odata::client::clone_opt(&m.description),
                },
            );
            proof {
                assert(self.members@.take(i as int + 1) =~= self.members@.take(i as int).push(
                    self.members@[i as int],
                ));
            }
            i = i + 1;
        }
        proof {
            assert(self.members@.take(self.members@.len() as int) =~= self.members@);
        }
        ModelContents {
            model: self.model.clone(),
            description: crate::odata::client::clone_opt(&self.description),
            members,
        }
    }
}

#[derive(Debug)]
pub struct MetaSearchRequest {
    pub query: String,
    pub kind: Option<XppObjectKind>,
    pub max_results: usize,
}

/// The result limit of a search request that names none.
pub fn default_max_results() -> (r: usize)
    ensures
        r == 25,
{
    25
}

/// One search hit.  The score counts how often the query terms occur in the
/// object's name and description; higher is a better match.
#[derive(Debug)]
pub struct MetaSearchHit {
    pub name: String,
    pub kind: XppObjectKind,
    pub description: Option<String>,
    pub model: Option<String>,
    pub score: u128,
}

#[derive(Debug)]
pub struct CrossReferenceRequest {
    pub name: String,
    pub kind: XppObjectKind,
}

#[derive(Debug)]
pub struct CrossReferenceHit {
    pub object: String,
    pub kind: XppObjectKind,
    /// Where in the object the reference appears (e.g. method, line).
    pub location: String,
    /// e.g. `read`, `write`, `call`, `extends`, `implements`.
    pub usage: String,
}

impl CrossReferenceHit {
    /// A field-by-field copy.
    pub fn duplicate(&self) -> (r: Self)
        ensures
            r == *self,
    {
        CrossReferenceHit {
            object: self.object.clone(),
            kind: self.kind,
            location: self.location.clone(),
            usage: self.usage.clone(),
        }
    }
}

/// One entity record: its members, each a property name and value.
#[derive(Debug)]
pub struct EntityRow {
    pub values: Vec<(String, Json)>,
}

#[derive(Debug)]
pub struct DeployRequest {
    pub name: String,
    pub kind: XppObjectKind,
}

#[derive(Debug)]
pub struct DeployOutcome {
    pub name: String,
    pub kind: XppObjectKind,
    pub deployed: bool,
    pub messages: Vec<String>,
}

} // verus!
