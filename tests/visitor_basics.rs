use schema_visitor::{
    build_kernel_schema, create_primitive_type, handle_or_zero, unwrap_kernel_schema, visit_schema_array,
    visit_schema_binary, visit_schema_boolean, visit_schema_boolean_simple, visit_schema_byte, visit_schema_date,
    visit_schema_decimal, visit_schema_double, visit_schema_float, visit_schema_integer, visit_schema_long,
    visit_schema_long_simple, visit_schema_map, visit_schema_short, visit_schema_string, visit_schema_string_simple,
    visit_schema_struct, visit_schema_timestamp, visit_schema_timestamp_ntz, DataType, KernelSchemaVisitorState,
    PrimitiveType,
};

#[test]
fn schema_visitor_test_basic_schema_visitor() {
    let mut state = KernelSchemaVisitorState::default();

    let test_field = "test_field".to_string();
    let field_result = visit_schema_string(&mut state, &test_field, false, None);
    assert!(field_result.is_ok(), "Field creation should succeed");
    let field_id = field_result.unwrap();

    let field_ids = vec![field_id];
    let schema_result = build_kernel_schema(&mut state, &field_ids);
    assert!(schema_result.is_ok(), "Schema building should succeed");
    let schema_id = schema_result.unwrap();

    let schema = unwrap_kernel_schema(&mut state, schema_id);
    assert!(schema.is_some(), "Schema should be extractable");

    if let Some(schema) = schema {
        assert_eq!(schema.fields().len(), 1, "Schema should have 1 field");
        let field = schema.fields().iter().next().unwrap();
        assert_eq!(field.name(), "test_field");
        assert!(!field.is_nullable());
    }
}

#[test]
fn schema_visitor_test_multiple_field_schema() {
    let mut state = KernelSchemaVisitorState::default();

    let id_field = visit_schema_long(&mut state, "id", false, None).unwrap();
    let name_field = visit_schema_string(&mut state, "name", true, None).unwrap();
    let active_field = visit_schema_boolean(&mut state, "active", false, None).unwrap();

    let field_ids = vec![id_field, name_field, active_field];
    let schema_id = build_kernel_schema(&mut state, &field_ids).unwrap();

    let schema = unwrap_kernel_schema(&mut state, schema_id);
    assert!(schema.is_some());

    if let Some(schema) = schema {
        assert_eq!(schema.fields().len(), 3, "Schema should have 3 fields");

        let field_names: Vec<String> = schema.fields().iter().map(|f| f.name().to_string()).collect();
        assert!(field_names.contains(&"id".to_string()));
        assert!(field_names.contains(&"name".to_string()));
        assert!(field_names.contains(&"active".to_string()));
    }
}

#[test]
fn test_end_to_end_schema_projection() {
    println!("🚀 Testing end-to-end schema projection...");

    let mut state = KernelSchemaVisitorState::default();

    let id_field = visit_schema_long(&mut state, "id", false, None).unwrap();
    let name_field = visit_schema_string(&mut state, "name", true, None).unwrap();
    let active_field = visit_schema_boolean(&mut state, "active", false, None).unwrap();

    let field_ids = vec![id_field, name_field, active_field];
    let schema_id = build_kernel_schema(&mut state, &field_ids).unwrap();

    let schema = unwrap_kernel_schema(&mut state, schema_id);
    assert!(schema.is_some(), "Should be able to extract schema");

    if let Some(schema) = schema {
        println!("✅ Successfully created projected schema with {} fields:", schema.fields().len());

        for field in schema.fields() {
            println!(
                "  - {} ({}{})",
                field.name(),
                match field.data_type() {
                    DataType::Primitive(p) => format!("{:?}", p),
                    other => format!("{:?}", other),
                },
                if field.is_nullable() { ", nullable" } else { "" }
            );
        }

        assert_eq!(schema.fields().len(), 3, "Schema should have exactly 3 fields");

        let field_names: Vec<String> = schema.fields().iter().map(|f| f.name().to_string()).collect();
        assert!(field_names.contains(&"id".to_string()), "Should contain 'id' field");
        assert!(field_names.contains(&"name".to_string()), "Should contain 'name' field");
        assert!(field_names.contains(&"active".to_string()), "Should contain 'active' field");

        for field in schema.fields() {
            match field.name().as_str() {
                "id" => {
                    assert!(matches!(field.data_type(), DataType::Primitive(PrimitiveType::Long)));
                    assert!(!field.is_nullable());
                }
                "name" => {
                    assert!(matches!(field.data_type(), DataType::Primitive(PrimitiveType::String)));
                    assert!(field.is_nullable());
                }
                "active" => {
                    assert!(matches!(field.data_type(), DataType::Primitive(PrimitiveType::Boolean)));
                    assert!(!field.is_nullable());
                }
                _ => panic!("Unexpected field: {}", field.name()),
            }
        }

        println!("✅ All field types and nullability verified!");
        println!("✅ Schema projection integration test passed!");
    }
}

#[test]
fn test_complex_nested_schema() {
    let mut state = KernelSchemaVisitorState::default();

    println!("🚀 Testing complex nested schema with arrays, maps, and structs...");

    let id_field = visit_schema_long(&mut state, "id", false, None).unwrap();
    let name_field = visit_schema_string(&mut state, "name", false, None).unwrap();
    let street_field = visit_schema_string(&mut state, "street", false, None).unwrap();
    let city_field = visit_schema_string(&mut state, "city", false, None).unwrap();
    let active_field = visit_schema_boolean(&mut state, "active", false, None).unwrap();

    let double_type = create_primitive_type(&mut state, 6).unwrap();
    let coordinates_field = visit_schema_array(&mut state, "coordinates", double_type, false, false, None).unwrap();

    let float_type = create_primitive_type(&mut state, 5).unwrap();
    let scores_field = visit_schema_array(&mut state, "scores", float_type, false, false, None).unwrap();

    let string_key_type = create_primitive_type(&mut state, 0).unwrap();
    let string_value_type = create_primitive_type(&mut state, 0).unwrap();
    let metadata_field =
        visit_schema_map(&mut state, "metadata", string_key_type, string_value_type, false, false, None).unwrap();

    let address_fields = vec![street_field, city_field, coordinates_field];
    let address_field = visit_schema_struct(&mut state, "address", &address_fields, false, None).unwrap();

    let user_fields = vec![name_field, address_field, metadata_field];
    let user_field = visit_schema_struct(&mut state, "user", &user_fields, false, None).unwrap();

    let root_fields = vec![id_field, user_field, scores_field, active_field];
    let schema_id = build_kernel_schema(&mut state, &root_fields).unwrap();

    let schema = unwrap_kernel_schema(&mut state, schema_id);
    assert!(schema.is_some(), "Should be able to extract complex schema");

    if let Some(schema) = schema {
        println!("✅ Successfully created complex nested schema with {} top-level fields:", schema.fields().len());

        assert_eq!(schema.fields().len(), 4, "Root should have 4 fields");

        let field_names: Vec<String> = schema.fields().iter().map(|f| f.name().to_string()).collect();
        assert!(field_names.contains(&"id".to_string()));
        assert!(field_names.contains(&"user".to_string()));
        assert!(field_names.contains(&"scores".to_string()));
        assert!(field_names.contains(&"active".to_string()));

        let user_field = schema.fields().iter().find(|f| f.name() == "user").unwrap();
        if let DataType::Struct(user_struct) = user_field.data_type() {
            assert_eq!(user_struct.fields().len(), 3, "User struct should have 3 fields");

            let user_field_names: Vec<String> = user_struct.fields().iter().map(|f| f.name().to_string()).collect();
            assert!(user_field_names.contains(&"name".to_string()));
            assert!(user_field_names.contains(&"address".to_string()));
            assert!(user_field_names.contains(&"metadata".to_string()));

            let address_field = user_struct.fields().iter().find(|f| f.name() == "address").unwrap();
            if let DataType::Struct(address_struct) = address_field.data_type() {
                assert_eq!(address_struct.fields().len(), 3, "Address should have 3 fields");

                let addr_field_names: Vec<String> =
                    address_struct.fields().iter().map(|f| f.name().to_string()).collect();
                assert!(addr_field_names.contains(&"street".to_string()));
                assert!(addr_field_names.contains(&"city".to_string()));
                assert!(addr_field_names.contains(&"coordinates".to_string()));

                let coordinates_field = address_struct.fields().iter().find(|f| f.name() == "coordinates").unwrap();
                if let DataType::Array(array_type) = coordinates_field.data_type() {
                    assert!(matches!(array_type.element_type, DataType::Primitive(PrimitiveType::Double)));
                } else {
                    panic!("Coordinates should be array type");
                }
            } else {
                panic!("Address should be struct type");
            }

            let metadata_field = user_struct.fields().iter().find(|f| f.name() == "metadata").unwrap();
            if let DataType::Mapping(map_type) = metadata_field.data_type() {
                assert!(matches!(map_type.key_type, DataType::Primitive(PrimitiveType::String)));
                assert!(matches!(map_type.value_type, DataType::Primitive(PrimitiveType::String)));
            } else {
                panic!("Metadata should be map type");
            }
        } else {
            panic!("User field should be struct type");
        }

        let scores_field = schema.fields().iter().find(|f| f.name() == "scores").unwrap();
        if let DataType::Array(array_type) = scores_field.data_type() {
            assert!(matches!(array_type.element_type, DataType::Primitive(PrimitiveType::Float)));
        } else {
            panic!("Scores should be array type");
        }

        println!("✅ All nested structure validations passed!");
        println!("✅ Field ID approach successfully handles arbitrary nesting!");
    }
}

#[test]
fn test_decimal_and_timestamps() {
    let mut state = KernelSchemaVisitorState::default();

    let price_field = visit_schema_decimal(&mut state, "price", 10, 2, false, None).unwrap();
    let created_at_field = visit_schema_timestamp(&mut state, "created_at", false, None).unwrap();
    let updated_at_field = visit_schema_timestamp_ntz(&mut state, "updated_at", true, None).unwrap();
    let birth_date_field = visit_schema_date(&mut state, "birth_date", true, None).unwrap();
    let file_data_field = visit_schema_binary(&mut state, "file_data", true, None).unwrap();
    let score_field = visit_schema_float(&mut state, "score", false, None).unwrap();
    let count_field = visit_schema_short(&mut state, "count", false, None).unwrap();
    let flag_field = visit_schema_byte(&mut state, "flag", false, None).unwrap();

    let field_ids = vec![
        price_field,
        created_at_field,
        updated_at_field,
        birth_date_field,
        file_data_field,
        score_field,
        count_field,
        flag_field,
    ];
    let schema_id = build_kernel_schema(&mut state, &field_ids).unwrap();

    let schema = unwrap_kernel_schema(&mut state, schema_id);
    assert!(schema.is_some(), "All primitive types schema should be extractable");

    if let Some(schema) = schema {
        assert_eq!(schema.fields().len(), 8, "Should have all 8 primitive type fields");

        let price_field = schema.fields().iter().find(|f| f.name() == "price").unwrap();
        if let DataType::Primitive(PrimitiveType::Decimal(decimal_type)) = price_field.data_type() {
            assert_eq!(decimal_type.precision(), 10);
            assert_eq!(decimal_type.scale(), 2);
        } else {
            panic!("Price should be decimal type");
        }

        let created_field = schema.fields().iter().find(|f| f.name() == "created_at").unwrap();
        assert!(matches!(created_field.data_type(), DataType::Primitive(PrimitiveType::Timestamp)));

        let updated_field = schema.fields().iter().find(|f| f.name() == "updated_at").unwrap();
        assert!(matches!(updated_field.data_type(), DataType::Primitive(PrimitiveType::TimestampNtz)));

        println!("✅ All primitive types (decimal, timestamps, binary, etc.) work correctly!");
    }
}

#[test]
fn schema_visitor_test_test_basic_schema_visitor() {
    let mut state = KernelSchemaVisitorState::default();

    let field_id = handle_or_zero(visit_schema_string_simple(&mut state, "test_field", false));
    assert_ne!(field_id, 0, "Field ID should not be 0 (error)");

    let field_ids = vec![field_id];
    let schema_id = handle_or_zero(build_kernel_schema(&mut state, &field_ids));
    assert_ne!(schema_id, 0, "Schema ID should not be 0 (error)");

    let schema = unwrap_kernel_schema(&mut state, schema_id);
    assert!(schema.is_some(), "Schema should be extractable");

    if let Some(schema) = schema {
        assert_eq!(schema.fields().len(), 1, "Schema should have 1 field");
        let field = schema.fields().iter().next().unwrap();
        assert_eq!(field.name(), "test_field");
        assert!(!field.is_nullable());
    }
}

#[test]
fn schema_visitor_test_test_multiple_field_schema() {
    let mut state = KernelSchemaVisitorState::default();

    let id_field = handle_or_zero(visit_schema_long_simple(&mut state, "id", false));
    let name_field = handle_or_zero(visit_schema_string_simple(&mut state, "name", true));
    let active_field = handle_or_zero(visit_schema_boolean_simple(&mut state, "active", false));

    assert_ne!(id_field, 0);
    assert_ne!(name_field, 0);
    assert_ne!(active_field, 0);

    let field_ids = vec![id_field, name_field, active_field];
    let schema_id = handle_or_zero(build_kernel_schema(&mut state, &field_ids));
    assert_ne!(schema_id, 0);

    let schema = unwrap_kernel_schema(&mut state, schema_id);
    assert!(schema.is_some());

    if let Some(schema) = schema {
        assert_eq!(schema.fields().len(), 3, "Schema should have 3 fields");

        let field_names: Vec<&str> = schema.fields().iter().map(|f| f.name().as_str()).collect();
        assert!(field_names.contains(&"id"));
        assert!(field_names.contains(&"name"));
        assert!(field_names.contains(&"active"));
    }
}

#[test]
fn integer_and_double_leaves_keep_their_types() {
    let mut state = KernelSchemaVisitorState::new();
    let a = visit_schema_integer(&mut state, "a", true, None).unwrap();
    let b = visit_schema_double(&mut state, "b", false, None).unwrap();
    let root = build_kernel_schema(&mut state, &[a, b]).unwrap();
    let schema = unwrap_kernel_schema(&mut state, root).unwrap();
    assert_eq!(schema.fields()[0].data_type, DataType::Primitive(PrimitiveType::Integer));
    assert!(schema.fields()[0].nullable);
    assert_eq!(schema.fields()[1].data_type, DataType::Primitive(PrimitiveType::Double));
    assert!(!schema.fields()[1].nullable);
}
