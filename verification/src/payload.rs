//! Creation payloads: the input record, the asset-creation document built
//! from it, and the JSON text the document is submitted as.

use vstd::prelude::*;
use vstd::string::*;
use crate::text::{append_json_escaped, json_escaped, lower_of, lowercase, push_char};

verus! {

/// One validated row of the input source.
pub struct AssetRecord {
    pub location: String,
    pub name: String,
    pub lifecycle_state: String,
    pub asset_type: String,
    pub model_id: String,
    pub serial_number: String,
    pub asset_tag: String,
    pub rack_u_location: Option<String>,
    pub rack_side: Option<String>,
    pub rack_position: Option<String>,
}

/// The mathematical model of an input record.
pub struct RecordModel {
    pub location: Seq<char>,
    pub name: Seq<char>,
    pub lifecycle_state: Seq<char>,
    pub asset_type: Seq<char>,
    pub model_id: Seq<char>,
    pub serial_number: Seq<char>,
    pub asset_tag: Seq<char>,
    pub rack_u_location: Option<Seq<char>>,
    pub rack_side: Option<Seq<char>>,
    pub rack_position: Option<Seq<char>>,
}

impl View for AssetRecord {
    type V = RecordModel;

    open spec fn view(&self) -> RecordModel {
        RecordModel {
            location: self.location@,
            name: self.name@,
            lifecycle_state: self.lifecycle_state@,
            asset_type: self.asset_type@,
            model_id: self.model_id@,
            serial_number: self.serial_number@,
            asset_tag: self.asset_tag@,
            rack_u_location: self.rack_u_location.deep_view(),
            rack_side: self.rack_side.deep_view(),
            rack_position: self.rack_position.deep_view(),
        }
    }
}

/// One creatable asset property of the document.
pub struct AssetProperty {
    pub kind: String,
    pub value: String,
}

/// The mathematical model of an asset property.
pub struct PropertyModel {
    pub kind: Seq<char>,
    pub value: Seq<char>,
}

impl View for AssetProperty {
    type V = PropertyModel;

    open spec fn view(&self) -> PropertyModel {
        PropertyModel { kind: self.kind@, value: self.value@ }
    }
}

/// The rack-placement object of a document, present only when the record
/// populated at least one rack-placement field.
pub struct LocationData {
    pub parent_id: String,
    pub rack_side: Option<String>,
    pub rack_u_location: Option<String>,
    pub rack_position: Option<String>,
}

/// The mathematical model of the rack-placement object.
pub struct LocationDataModel {
    pub parent_id: Seq<char>,
    pub rack_side: Option<Seq<char>>,
    pub rack_u_location: Option<Seq<char>>,
    pub rack_position: Option<Seq<char>>,
}

impl View for LocationData {
    type V = LocationDataModel;

    open spec fn view(&self) -> LocationDataModel {
        LocationDataModel {
            parent_id: self.parent_id@,
            rack_side: self.rack_side.deep_view(),
            rack_u_location: self.rack_u_location.deep_view(),
            rack_position: self.rack_position.deep_view(),
        }
    }
}

/// The asset-creation document.  Its status is always the initial one, so
/// the rendered JSON carries the constant `"status":0` and the struct does
/// not repeat it.
pub struct AssetDocument {
    pub name: String,
    pub asset_type_id: String,
    pub parent_id: String,
    pub asset_lifecycle_state: String,
    pub product_id: String,
    pub properties: Vec<AssetProperty>,
    pub location_data: Option<LocationData>,
}

/// The mathematical model of an asset-creation document.
pub struct DocumentModel {
    pub name: Seq<char>,
    pub asset_type_id: Seq<char>,
    pub parent_id: Seq<char>,
    pub asset_lifecycle_state: Seq<char>,
    pub product_id: Seq<char>,
    pub properties: Seq<PropertyModel>,
    pub location_data: Option<LocationDataModel>,
}

impl View for AssetDocument {
    type V = DocumentModel;

    open spec fn view(&self) -> DocumentModel {
        DocumentModel {
            name: self.name@,
            asset_type_id: self.asset_type_id@,
            parent_id: self.parent_id@,
            asset_lifecycle_state: self.asset_lifecycle_state@,
            product_id: self.product_id@,
            properties: self.properties.deep_view(),
            location_data: self.location_data.deep_view(),
        }
    }
}

impl DeepView for AssetProperty {
    type V = PropertyModel;

    open spec fn deep_view(&self) -> PropertyModel {
        self@
    }
}

impl DeepView for LocationData {
    type V = LocationDataModel;

    open spec fn deep_view(&self) -> LocationDataModel {
        self@
    }
}

/// The lifecycle state the document carries: the record's own when it is
/// non-empty, else the default `"0"`.
pub open spec fn spec_lifecycle(state: Seq<char>) -> Seq<char> {
    if state.len() == 0 {
        "0"@
    } else {
        state
    }
}

/// The creatable properties of the document: always the serial number, and
/// the asset tag exactly when the record's tag is non-empty.
pub open spec fn spec_properties(r: RecordModel) -> Seq<PropertyModel> {
    if r.asset_tag.len() == 0 {
        seq![PropertyModel { kind: "serialNumber"@, value: r.serial_number }]
    } else {
        seq![
            PropertyModel { kind: "serialNumber"@, value: r.serial_number },
            PropertyModel { kind: "assetTag"@, value: r.asset_tag },
        ]
    }
}

/// The rack-placement object: present exactly when some rack-placement field
/// of the record is populated; each populated field is lower-cased.
pub open spec fn spec_location_data(r: RecordModel, parent: Seq<char>) -> Option<
    LocationDataModel,
> {
    if r.rack_side is Some || r.rack_u_location is Some || r.rack_position is Some {
        Some(
            LocationDataModel {
                parent_id: parent,
                rack_side: match r.rack_side {
                    Some(s) => Some(lower_of(s)),
                    None => None,
                },
                rack_u_location: match r.rack_u_location {
                    Some(s) => Some(lower_of(s)),
                    None => None,
                },
                rack_position: match r.rack_position {
                    Some(s) => Some(lower_of(s)),
                    None => None,
                },
            },
        )
    } else {
        None
    }
}

/// The document built from a record and the resolved parent identifier.
pub open spec fn spec_build(r: RecordModel, parent: Seq<char>) -> DocumentModel {
    DocumentModel {
        name: r.name,
        asset_type_id: r.asset_type,
        parent_id: parent,
        asset_lifecycle_state: spec_lifecycle(r.lifecycle_state),
        product_id: r.model_id,
        properties: spec_properties(r),
        location_data: spec_location_data(r, parent),
    }
}

/// Builds the asset-creation document for a record and its resolved parent.
/// Building is pure data transformation and cannot fail; missing optional
/// fields simply leave the corresponding document fields out.
pub fn build_document(record: &AssetRecord, parent_id: &str) -> (d: AssetDocument)
    ensures
        d@ == spec_build(record@, parent_id@),
{
    let mut properties: Vec<AssetProperty> = Vec::new();
    properties.push(
        AssetProperty { kind: String::from_str("serialNumber"), value: record.serial_number.clone() },
    );
    if !record.asset_tag.as_str().is_empty() {
        properties.push(
            AssetProperty { kind: String::from_str("assetTag"), value: record.asset_tag.clone() },
        );
    }
    proof {
        assert(properties.deep_view() =~= spec_properties(record@));
    }
    let asset_lifecycle_state = if record.lifecycle_state.as_str().is_empty() {
        String::from_str("0")
    } else {
        record.lifecycle_state.clone()
    };
    let location_data = if record.rack_side.is_some() || record.rack_u_location.is_some()
        || record.rack_position.is_some() {
        Some(
            LocationData {
                parent_id: String::from_str(parent_id),
                rack_side: match &record.rack_side {
                    Some(s) => Some(lowercase(s.as_str())),
                    None => None,
                },
                rack_u_location: match &record.rack_u_location {
                    Some(s) => Some(lowercase(s.as_str())),
                    None => None,
                },
                rack_position: match &record.rack_position {
                    Some(s) => Some(lowercase(s.as_str())),
                    None => None,
                },
            },
        )
    } else {
        None
    };
    AssetDocument {
        name: record.name.clone(),
        asset_type_id: record.asset_type.clone(),
        parent_id: String::from_str(parent_id),
        asset_lifecycle_state,
        product_id: record.model_id.clone(),
        properties,
        location_data,
    }
}

/// The document carries an asset-tag property exactly when the record's tag
/// is non-empty, and then with the record's exact tag value; the serial
/// number is always carried.
pub proof fn lemma_asset_tag_presence(r: RecordModel, parent: Seq<char>)
    ensures
        spec_build(r, parent).properties[0] == (PropertyModel {
            kind: "serialNumber"@,
            value: r.serial_number,
        }),
        r.asset_tag.len() != 0 <==> spec_build(r, parent).properties.len() == 2,
        r.asset_tag.len() != 0 ==> spec_build(r, parent).properties[1] == (PropertyModel {
            kind: "assetTag"@,
            value: r.asset_tag,
        }),
        r.asset_tag.len() == 0 ==> forall|i: int|
            0 <= i < spec_build(r, parent).properties.len() ==> spec_build(
                r,
                parent,
            ).properties[i].kind != "assetTag"@,
{
    if r.asset_tag.len() == 0 {
        assert forall|i: int| 0 <= i < spec_build(r, parent).properties.len() implies spec_build(
            r,
            parent,
        ).properties[i].kind != "assetTag"@ by {
            reveal_strlit("serialNumber");
            reveal_strlit("assetTag");
            assert(spec_build(r, parent).properties[i].kind == "serialNumber"@);
            assert("serialNumber"@.len() != "assetTag"@.len());
        }
    }
}

/// The document's lifecycle state is the default `"0"` exactly when the
/// record's lifecycle state is empty, and the record's exact value otherwise.
pub proof fn lemma_lifecycle_default(r: RecordModel, parent: Seq<char>)
    ensures
        r.lifecycle_state.len() == 0 ==> spec_build(r, parent).asset_lifecycle_state == "0"@,
        r.lifecycle_state.len() != 0 ==> spec_build(r, parent).asset_lifecycle_state
            == r.lifecycle_state,
{
}

/// The JSON text of one creatable asset property.
pub open spec fn property_json(p: PropertyModel) -> Seq<char> {
    "{\"type\":\""@ + json_escaped(p.kind) + "\",\"value\":\""@ + json_escaped(p.value) + "\"}"@
}

/// The JSON text of the property list's elements, comma-separated.
pub open spec fn properties_json(ps: Seq<PropertyModel>) -> Seq<char>
    decreases ps.len(),
{
    if ps.len() == 0 {
        Seq::empty()
    } else if ps.len() == 1 {
        property_json(ps[0])
    } else {
        properties_json(ps.drop_last()) + seq![','] + property_json(ps.last())
    }
}

/// The JSON text of an optional lower-cased rack-placement field.
pub open spec fn opt_field_json(label: Seq<char>, v: Option<Seq<char>>) -> Seq<char> {
    match v {
        Some(s) => seq![',', '"'] + label + "\":\""@ + json_escaped(s) + seq!['"'],
        None => Seq::empty(),
    }
}

/// The JSON text of the rack-placement object.
pub open spec fn location_data_json(l: LocationDataModel) -> Seq<char> {
    "{\"parentId\":\""@ + json_escaped(l.parent_id) + seq!['"']
        + opt_field_json("rackSide"@, l.rack_side)
        + opt_field_json("rackULocation"@, l.rack_u_location)
        + opt_field_json("rackPosition"@, l.rack_position)
        + seq!['}']
}

/// The scalar fields and the property list of the document's JSON text.
pub open spec fn document_core_json(d: DocumentModel) -> Seq<char> {
    "{\"name\":\""@ + json_escaped(d.name)
        + "\",\"status\":0,\"assetTypeId\":\""@ + json_escaped(d.asset_type_id)
        + "\",\"parentId\":\""@ + json_escaped(d.parent_id)
        + "\",\"assetLifecycleState\":\""@ + json_escaped(d.asset_lifecycle_state)
        + "\",\"productId\":\""@ + json_escaped(d.product_id)
        + "\",\"creatableAssetProperties\":["@ + properties_json(d.properties) + seq![']']
}

/// The JSON text an asset-creation document is submitted as.
pub open spec fn document_json(d: DocumentModel) -> Seq<char> {
    document_core_json(d) + (match d.location_data {
        Some(l) => ",\"locationData\":"@ + location_data_json(l),
        None => Seq::empty(),
    }) + seq!['}']
}

/// Appends the JSON text of an optional lower-cased field.
fn append_opt_field(out: &mut String, label: &str, v: &Option<String>)
    ensures
        final(out)@ == old(out)@ + opt_field_json(label@, v.deep_view()),
{
    match v {
        Some(s) => {
            push_char(out, ',');
            push_char(out, '"');
            out.append(label);
            out.append("\":\"");
            append_json_escaped(out, s.as_str());
            push_char(out, '"');
            proof {
                assert(out@ =~= old(out)@ + opt_field_json(label@, v.deep_view()));
            }
        },
        None => {
            proof {
                assert(out@ =~= old(out)@ + opt_field_json(label@, v.deep_view()));
            }
        },
    }
}

/// Renders the JSON text of an asset-creation document.
pub fn render_document(d: &AssetDocument) -> (r: String)
    ensures
        r@ == document_json(d@),
{
    let mut out = String::from_str("{\"name\":\"");
    append_json_escaped(&mut out, d.name.as_str());
    out.append("\",\"status\":0,\"assetTypeId\":\"");
    append_json_escaped(&mut out, d.asset_type_id.as_str());
    out.append("\",\"parentId\":\"");
    append_json_escaped(&mut out, d.parent_id.as_str());
    out.append("\",\"assetLifecycleState\":\"");
    append_json_escaped(&mut out, d.asset_lifecycle_state.as_str());
    out.append("\",\"productId\":\"");
    append_json_escaped(&mut out, d.product_id.as_str());
    out.append("\",\"creatableAssetProperties\":[");
    let ghost props = d.properties.deep_view();
    let mut i: usize = 0;
    let ghost before_props = out@;
    while i < d.properties.len()
        invariant
            i <= d.properties.len(),
            props == d.properties.deep_view(),
            props.len() == d.properties.len(),
            out@ == before_props + properties_json(props.take(i as int)),
        decreases d.properties.len() - i,
    {
        if i > 0 {
            push_char(&mut out, ',');
        }
        let p: &AssetProperty = &d.properties[i];
        out.append("{\"type\":\"");
        append_json_escaped(&mut out, p.kind.as_str());
        out.append("\",\"value\":\"");
        append_json_escaped(&mut out, p.value.as_str());
        out.append("\"}");
        proof {
            assert(p@ == props[i as int]);
            if i == 0 {
                assert(props.take(1)[0] == props[0]);
                assert(props.take(1).len() == 1);
                assert(out@ =~= before_props + properties_json(props.take(1)));
            } else {
                assert(props.take(i + 1).drop_last() =~= props.take(i as int));
                assert(props.take(i + 1).last() == props[i as int]);
                assert(out@ =~= before_props + properties_json(props.take(i + 1)));
            }
        }
        i = i + 1;
    }
    proof {
        assert(props.take(props.len() as int) =~= props);
    }
    push_char(&mut out, ']');
    proof {
        assert(out@ =~= document_core_json(d@));
    }
    let ghost core = out@;
    match &d.location_data {
        Some(l) => {
            out.append(",\"locationData\":");
            out.append("{\"parentId\":\"");
            append_json_escaped(&mut out, l.parent_id.as_str());
            push_char(&mut out, '"');
            append_opt_field(&mut out, "rackSide", &l.rack_side);
            append_opt_field(&mut out, "rackULocation", &l.rack_u_location);
            append_opt_field(&mut out, "rackPosition", &l.rack_position);
            push_char(&mut out, '}');
            proof {
                assert(out@ =~= core + ",\"locationData\":"@ + location_data_json(l@));
            }
        },
        None => {},
    }
    push_char(&mut out, '}');
    proof {
        assert(out@ =~= document_json(d@));
    }
    out
}

/// The body of the creation request a record gives rise to, given the
/// resolved parent identifier.
pub open spec fn upload_body_of(r: RecordModel, parent: Seq<char>) -> Seq<char> {
    document_json(spec_build(r, parent))
}

} // verus!
