use grass::error::GrassError;
use grass::hooks::{GrassDiscordHook, GrassHookPayload, GrassHookRegistry, GrassHookTrigger, GrassHttpMethod, GrassSlackHook, GrassWebhookHook};
use grass::ids::new_v4_id;
use grass::plugins::{plugin_name_from_file, GrassPluginLoader, GrassPluginRegistry};
use grass::protocol::{GrassAcpRouter, GrassGrpcRegistry, GrassMcpRouter};
use grass::text_map::GrassStringMap;

#[test]
fn test_hook_registry_register_and_fire() {
    let mut reg: GrassHookRegistry<&str> = GrassHookRegistry::new();
    let id = new_v4_id();
    reg.register(id, &GrassHookTrigger::OnCustom("test".into()), "test-hook");

    let payload = GrassHookPayload {
        trigger: GrassHookTrigger::OnCustom("test".into()),
        data: "{}".into(),
        metadata: GrassStringMap::new(),
    };
    let results = reg.hooks_to_fire(&payload.trigger);
    assert_eq!(results.len(), 1);
}

#[test]
fn unregistered_hooks_no_longer_fire() {
    let mut reg: GrassHookRegistry<u8> = GrassHookRegistry::new();
    let a = new_v4_id();
    let b = new_v4_id();
    reg.register(a, &GrassHookTrigger::OnMessage, 1);
    reg.register(b, &GrassHookTrigger::OnMessage, 2);
    reg.register(new_v4_id(), &GrassHookTrigger::OnAgentStart, 3);
    assert_eq!(reg.hooks_to_fire(&GrassHookTrigger::OnMessage), vec![a, b]);
    reg.unregister(a);
    assert_eq!(reg.hooks_to_fire(&GrassHookTrigger::OnMessage), vec![b]);
    assert_eq!(reg.hook(b), Some(&2));
    assert!(reg.hook(a).is_none());
    assert_eq!(reg.list_hooks().len(), 2);
    assert!(reg.hooks_to_fire(&GrassHookTrigger::OnTaskFailed).is_empty());
}

#[test]
fn test_discord_hook_metadata() {
    let hook = GrassDiscordHook::new("https://discord.com/api/webhooks/test");
    assert_eq!(hook.name(), "discord");
    assert_eq!(hook.trigger().debug_text(), "OnCustom(\"discord\")");
}

#[test]
fn discord_content_names_trigger_and_message() {
    let hook = GrassDiscordHook::new("https://discord.com/api/webhooks/test");
    assert_eq!(
        hook.content(&GrassHookTrigger::OnTaskFailed, Some("boom")),
        "**[grass.ai]** OnTaskFailed: boom"
    );
    assert_eq!(
        hook.content(&GrassHookTrigger::OnAgentStart, None),
        "**[grass.ai]** OnAgentStart: event occurred"
    );
}

#[test]
fn test_slack_hook_format_message() {
    let hook = GrassSlackHook::new("https://hooks.slack.com/test", "#general");
    let payload = GrassHookPayload {
        trigger: GrassHookTrigger::OnCustom("test".into()),
        data: "{\"message\":\"hello\"}".into(),
        metadata: GrassStringMap::new(),
    };
    let data: serde_json::Value = serde_json::from_str(&payload.data).unwrap();
    let msg = hook.format_message(&payload.trigger, data["message"].as_str());
    assert_eq!(msg.channel, "#general");
    assert!(msg.text.contains("hello"));
    assert_eq!(msg.text, "[OnCustom(\"test\")] hello");
    assert_eq!(msg.section_text, "*grass.ai hook*\n[OnCustom(\"test\")] hello");
}

#[test]
fn test_webhook_builder() {
    let hook = GrassWebhookHook::new("https://example.com/hook", "POST")
        .with_header("Authorization", "Bearer tok")
        .with_header("X-Custom", "val");
    assert_eq!(hook.headers.len(), 2);
    assert_eq!(hook.http_method(), GrassHttpMethod::Post);
    assert_eq!(GrassWebhookHook::new("u", "DELETE").http_method(), GrassHttpMethod::Get);
    assert_eq!(hook.name(), "webhook");
}

#[test]
fn test_plugin_loader_creation() {
    let loader = GrassPluginLoader::new("/tmp/plugins");
    assert_eq!(loader.manifest_dir(), "/tmp/plugins");
    assert_eq!(loader.manifest_path("x"), "/tmp/plugins/x.json");
}

#[test]
fn plugin_names_come_from_json_manifests() {
    assert_eq!(plugin_name_from_file("alpha.json"), Some("alpha".to_string()));
    assert_eq!(plugin_name_from_file("alpha.json.json"), Some("alpha".to_string()));
    assert_eq!(plugin_name_from_file("readme.md"), None);
}

#[test]
fn test_plugin_registry() {
    let reg: GrassPluginRegistry<u8> = GrassPluginRegistry::new();
    assert!(reg.list().is_empty());
}

#[test]
fn plugin_registry_forgets_every_name_of_an_unregistered_plugin() {
    let mut reg: GrassPluginRegistry<u8> = GrassPluginRegistry::new();
    let id = new_v4_id();
    reg.register(id, 5, "one").unwrap();
    reg.register(id, 5, "uno").unwrap();
    reg.register(new_v4_id(), 6, "two").unwrap();
    assert_eq!(reg.get("uno"), Some(&5));
    reg.unregister(id).unwrap();
    assert!(reg.get("one").is_none());
    assert!(reg.get("uno").is_none());
    assert_eq!(reg.list(), vec!["two"]);
}

#[test]
fn routers_report_missing_handlers() {
    let mut acp: GrassAcpRouter<u8> = GrassAcpRouter::new();
    acp.register("text/plain", 1);
    assert_eq!(acp.handler_for("text/plain"), Ok(&1));
    assert_eq!(
        acp.handler_for("image/png"),
        Err(GrassError::Protocol("no handler for: image/png".to_string()))
    );
    let mut mcp: GrassMcpRouter<u8> = GrassMcpRouter::new();
    mcp.register("tools/list", 2);
    assert_eq!(mcp.handler_for("tools/list"), Ok(&2));
    assert_eq!(
        mcp.handler_for("x"),
        Err(GrassError::Protocol("no handler for method: x".to_string()))
    );
    let mut grpc: GrassGrpcRegistry<u8> = GrassGrpcRegistry::new();
    grpc.register("svc", 3);
    assert_eq!(grpc.service_for("svc"), Ok(&3));
    assert_eq!(
        grpc.service_for("other"),
        Err(GrassError::Protocol("service 'other' not found".to_string()))
    );
}

#[test]
fn a_hook_registered_again_fires_once_per_registration() {
    let mut reg: GrassHookRegistry<u8> = GrassHookRegistry::new();
    let a = new_v4_id();
    let b = new_v4_id();
    reg.register(a, &GrassHookTrigger::OnMessage, 1);
    reg.register(b, &GrassHookTrigger::OnMessage, 2);
    reg.unregister(a);
    assert_eq!(reg.hooks_to_fire(&GrassHookTrigger::OnMessage), vec![b]);
    reg.register(a, &GrassHookTrigger::OnMessage, 3);
    assert_eq!(reg.hooks_to_fire(&GrassHookTrigger::OnMessage), vec![a, b, a]);
    assert_eq!(reg.hook(a), Some(&3));
    reg.register(b, &GrassHookTrigger::OnAgentStop, 4);
    assert_eq!(reg.hooks_to_fire(&GrassHookTrigger::OnAgentStop), vec![b]);
    assert_eq!(reg.hooks_to_fire(&GrassHookTrigger::OnMessage), vec![a, b, a]);
}
