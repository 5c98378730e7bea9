use fcastsender::platform::panel_stack::{Panel, PanelNavigator};

#[test]
fn ui_snapshots_all() {
    // 1. push/pop round trip
    {
        let mut pb = PanelNavigator::new();
        assert_eq!(pb.active, Panel::Home, "initial state is the home screen");

        pb.push(Panel::Settings);
        assert_eq!(pb.active, Panel::Settings);

        pb.push(Panel::Audio);
        assert_eq!(pb.active, Panel::Audio);

        pb.pop();
        assert_eq!(pb.active, Panel::Settings, "pop returns to Settings");

        pb.pop();
        assert_eq!(pb.active, Panel::Home, "pop to root returns the home screen");
    }

    // 2. pushing the same panel is a no-op
    {
        let mut pb = PanelNavigator::new();
        pb.push(Panel::Settings);
        pb.push(Panel::Settings);
        pb.pop();
        assert_eq!(
            pb.active,
            Panel::Home,
            "pushing the same panel twice leaves only one entry on the stack"
        );
    }

    // 3. close_all clears the stack
    {
        let mut pb = PanelNavigator::new();
        pb.push(Panel::Settings);
        pb.push(Panel::Audio);
        pb.push(Panel::Camera);

        pb.close_all();
        assert_eq!(pb.active, Panel::Home);

        pb.pop();
        assert_eq!(pb.active, Panel::Home);
    }

    // 4. replace swaps without growing the stack
    {
        let mut pb = PanelNavigator::new();
        pb.push(Panel::Settings);
        pb.replace(Panel::Audio);

        pb.pop();
        assert_eq!(pb.active, Panel::Home);
    }
}

#[test]
fn stack_lists_covered_panels_top_first() {
    let mut pb = PanelNavigator::new();
    pb.push(Panel::Settings);
    pb.push(Panel::Audio);
    pb.push(Panel::MediaBackend);
    assert_eq!(pb.stack.as_model(), vec![Panel::Audio, Panel::Settings]);
    pb.pop();
    assert_eq!(pb.active, Panel::Audio);
    assert_eq!(pb.stack.as_model(), vec![Panel::Settings]);
}
