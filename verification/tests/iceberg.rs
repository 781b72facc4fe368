use axiom_kernel::adapters::iceberg::{IcebergMetadata, IcebergSchema, IcebergTableState};
use uuid::Uuid;

fn metadata_from_json(json: &str) -> IcebergMetadata {
    let value: serde_json::Value = serde_json::from_str(json).unwrap();
    IcebergMetadata {
        table_uuid: Uuid::parse_str(value["table-uuid"].as_str().unwrap()).unwrap(),
        current_snapshot_id: value["current-snapshot-id"].as_i64(),
        schemas: value["schemas"]
            .as_array()
            .unwrap()
            .iter()
            .map(|schema| IcebergSchema { schema_id: schema["schema-id"].as_i64().unwrap() as i32 })
            .collect(),
        current_schema_id: value["current-schema-id"].as_i64().unwrap() as i32,
    }
}

#[test]
fn parse_iceberg_metadata_json() {
    let json = r#"
        {
          "format-version": 2,
          "table-uuid": "9f7c8b31-3f9d-4b0a-9c3c-6b8df92f7e11",
          "current-snapshot-id": 123456789,
          "current-schema-id": 1,
          "schemas": [
            { "schema-id": 0 },
            { "schema-id": 1 }
          ]
        }
        "#;

    let metadata: IcebergMetadata = metadata_from_json(json);
    let state = metadata.into_table_state();

    assert_eq!(state.current_snapshot_id, Some(123456789));
    assert_eq!(state.current_schema_id, 1);
}

#[test]
fn table_state_keeps_identity_snapshot_and_schema() {
    let id = Uuid::parse_str("9f7c8b31-3f9d-4b0a-9c3c-6b8df92f7e11").unwrap();
    let metadata = IcebergMetadata {
        table_uuid: id,
        current_snapshot_id: None,
        schemas: vec![IcebergSchema { schema_id: 4 }],
        current_schema_id: -3,
    };
    assert_eq!(
        metadata.into_table_state(),
        IcebergTableState { table_uuid: id, current_snapshot_id: None, current_schema_id: -3 }
    );
}
